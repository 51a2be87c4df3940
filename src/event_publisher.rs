//! A plain publisher for handlers that never leave on their own: every live handler
//! receives every event, and released handlers are dropped from the list.

use std::marker::PhantomData;
use std::sync::Arc;
use vstd::prelude::*;
use vstd::rwlock::RwLock;

verus! {

/// A component that reacts to every event of an `EventPublisher`.
pub trait EventHandler<S, E> {
    fn handle(self: Arc<Self>, sender: Arc<S>, event: E);
}

/// The non-owning reference an `EventPublisher` keeps to a handler: it delivers the
/// event only while some owner elsewhere still holds the handler, and tells whether
/// it could.
pub trait WeakEventHandler<S, E>: Sized {
    fn deliver(&self, sender: Arc<S>, event: E) -> bool;
}

/// Something that event handlers can subscribe to; `W` is the kind of reference it keeps.
pub trait Subscribable<S, E, W> {
    fn subscribe(&self, handler: W);
}

/// `alive` is what the handler reference `w` answered when handed `sender` and `event`.
pub open spec fn notified<S, E, W: WeakEventHandler<S, E>>(w: &W, sender: Arc<S>, event: E, alive: bool) -> bool {
    call_ensures(<W as WeakEventHandler<S, E>>::deliver, (w, sender, event), alive)
}

/// `alive` is what `w` answered when handed `sender` and a copy of `event`.
pub open spec fn notified_copy<S, E: Clone, W: WeakEventHandler<S, E>>(w: &W, sender: Arc<S>, event: E, alive: bool) -> bool {
    exists|e: E| cloned(event, e) && #[trigger] notified(w, sender, e, alive)
}

/// The references of `hs` to keep after a pass that reported `alive` for the first
/// ones: a reference is dropped only when the pass found its handler gone; those
/// added after the pass began are kept.
pub open spec fn pruned<W>(hs: Seq<W>, alive: Seq<bool>) -> Seq<W>
    decreases hs.len(),
{
    if hs.len() == 0 {
        Seq::empty()
    } else {
        let rest = pruned(hs.drop_last(), alive);
        let i = hs.len() - 1;
        if i >= alive.len() || alive[i] {
            rest.push(hs.last())
        } else {
            rest
        }
    }
}

/// Drops the references that the pass found dead.
pub fn prune<W>(handlers: Vec<W>, alive: &Vec<bool>) -> (r: Vec<W>)
    ensures
        r@ == pruned(handlers@, alive@),
{
    let mut rest = handlers;
    let ghost all = rest@;
    let total = rest.len();
    let mut kept: Vec<W> = Vec::new();
    let mut i: usize = 0;
    while i < total
        invariant
            i <= all.len() == total,
            rest@ == all.subrange(i as int, all.len() as int),
            kept@ == pruned(all.subrange(0, i as int), alive@),
        decreases total - i,
    {
        let h = rest.remove(0);
        assert(all.subrange(0, i + 1).drop_last() =~= all.subrange(0, i as int));
        if i >= alive.len() || alive[i] {
            kept.push(h);
        }
        i += 1;
        assert(rest@ =~= all.subrange(i as int, all.len() as int));
    }
    assert(all.subrange(0, total as int) =~= all);
    kept
}

/// Hands the event to each reference of `snapshot` in order and returns what each
/// answered: whether its handler was still alive.
pub fn notify_all<S, E: Clone, W: WeakEventHandler<S, E>>(snapshot: &Vec<W>, sender: &Arc<S>, event: &E) -> (r: Vec<bool>)
    ensures
        r@.len() == snapshot@.len(),
        forall|k: int| 0 <= k < snapshot@.len() ==> notified_copy(&#[trigger] snapshot@[k], *sender, *event, r@[k]),
{
    let mut alive: Vec<bool> = Vec::new();
    let mut i: usize = 0;
    while i < snapshot.len()
        invariant
            i <= snapshot@.len(),
            alive@.len() == i,
            forall|k: int| 0 <= k < i ==> notified_copy(&#[trigger] snapshot@[k], *sender, *event, alive@[k]),
        decreases snapshot@.len() - i,
    {
        let copy = event.clone();
        let ghost e = copy;
        let deliver = <W as WeakEventHandler<S, E>>::deliver;
        let delivered = deliver(&snapshot[i], sender.clone(), copy);
        assert(notified(&snapshot@[i as int], *sender, e, delivered));
        alive.push(delivered);
        i += 1;
    }
    alive
}

/// A copy of every reference, to be walked without holding the list.
pub fn copy_all<W: Clone>(handlers: &Vec<W>) -> (r: Vec<W>)
    ensures
        r@.len() == handlers@.len(),
        forall|k: int| 0 <= k < handlers@.len() ==> cloned(handlers@[k], #[trigger] r@[k]),
{
    let mut out: Vec<W> = Vec::new();
    let mut i: usize = 0;
    while i < handlers.len()
        invariant
            i <= handlers@.len(),
            out@.len() == i,
            forall|k: int| 0 <= k < i ==> cloned(handlers@[k], #[trigger] out@[k]),
        decreases handlers@.len() - i,
    {
        out.push(handlers[i].clone());
        i += 1;
    }
    out
}

#[verifier::reject_recursive_types(S)]
#[verifier::reject_recursive_types(E)]
#[verifier::reject_recursive_types(W)]
pub struct EventPublisher<S, E, W> {
    subscribers: RwLock<Vec<W>, spec_fn(Vec<W>) -> bool>,
    dispatch_lock: RwLock<(), spec_fn(()) -> bool>,
    stream: PhantomData<(S, E)>,
}

impl<S, E, W> EventPublisher<S, E, W> {
    #[verifier::type_invariant]
    closed spec fn wf(&self) -> bool {
        &&& forall|v: Vec<W>| #[trigger] self.subscribers.inv(v)
        &&& forall|u: ()| #[trigger] self.dispatch_lock.inv(u)
    }
}

impl<S, E: Clone, W: WeakEventHandler<S, E> + Clone> EventPublisher<S, E, W> {
    pub fn new() -> Self {
        EventPublisher {
            subscribers: RwLock::new(Vec::new(), Ghost(|v: Vec<W>| true)),
            dispatch_lock: RwLock::new((), Ghost(|u: ()| true)),
            stream: PhantomData,
        }
    }

    /// Delivers the event to every live handler in subscription order, then drops
    /// the references whose handler was gone. Handlers run on a copy of the list, so
    /// they may subscribe to this publisher; one dispatch at a time runs the pass.
    pub fn dispatch(&self, sender: Arc<S>, event: E) {
        proof {
            use_type_invariant(self);
        }
        let (order, order_guard) = self.dispatch_lock.acquire_write();
        let (handlers, guard) = self.subscribers.acquire_write();
        let snapshot = copy_all(&handlers);
        guard.release_write(handlers);

        let alive = notify_all(&snapshot, &sender, &event);

        let (handlers, guard) = self.subscribers.acquire_write();
        let kept = prune(handlers, &alive);
        guard.release_write(kept);
        order_guard.release_write(order);
    }

    /// How many references the publisher holds right now.
    pub fn subscriber_count(&self) -> usize {
        proof {
            use_type_invariant(self);
        }
        let (handlers, guard) = self.subscribers.acquire_write();
        let n = handlers.len();
        guard.release_write(handlers);
        n
    }
}

impl<S, E: Clone, W: WeakEventHandler<S, E> + Clone> Subscribable<S, E, W> for EventPublisher<S, E, W> {
    fn subscribe(&self, handler: W) {
        proof {
            use_type_invariant(self);
        }
        let (mut handlers, guard) = self.subscribers.acquire_write();
        handlers.push(handler);
        guard.release_write(handlers);
    }
}

} // verus!
