//! A publisher: the registrations of one event stream, and the dispatch pass that
//! delivers an event to every live handler in registration order.

use std::sync::Arc;
use vstd::prelude::*;
use vstd::rwlock::RwLock;

use crate::subscription::{
    due_ids, regs_of, should_remove, EventSubscription, HandlerOutcome, SubscriberAction,
    SubscriberList, SubscriptionId, SubscriptionMode,
};

verus! {

/// A component that reacts to the events of a publisher. It answers each event with
/// `None` to stay subscribed or with `SubscriberAction::Unsubscribe` to leave.
pub trait Subscriber<S, E> {
    fn handle(self: Arc<Self>, sender: Arc<S>, event: E) -> Option<SubscriberAction>;
}

/// The reference a publisher keeps to a handler. It must not own the handler: it
/// reaches the handler only while some owner elsewhere still holds it (for instance a
/// `std::sync::Weak`), and reports `HandlerOutcome::Dropped` without invoking anything
/// once the owners have released it.
pub trait WeakSubscriber<S, E>: Sized {
    fn deliver(&self, sender: Arc<S>, event: E) -> HandlerOutcome;
}

/// Makes the non-owning reference to a handler held in an `Arc`.
pub trait Downgrade<T>: Sized {
    fn downgrade(handler: &Arc<T>) -> Self;
}

/// Something that handlers can subscribe to; `W` is the kind of reference it keeps.
pub trait Subscribable<S, E, W> {
    fn name(&self) -> &str;

    fn subscribe<T>(&self, subscriber: Arc<T>) -> SubscriptionId
        where W: Downgrade<T>;

    fn subscribe_once<T>(&self, subscriber: Arc<T>) -> SubscriptionId
        where W: Downgrade<T>;
}

/// Something that registrations can be withdrawn from.
pub trait Unsubscribable {
    fn unsubscribe(&self, id: SubscriptionId);
}

/// Relies on uuid::Uuid::new_v4 (with Uuid::as_u128 to read its 128 bits): a random
/// version-4 identifier; nothing is promised of its value.
#[verifier::external_body]
fn random_id() -> (r: u128) {
    uuid::Uuid::new_v4().as_u128()
}

/// `out` is what the handler reference `w` answered when handed `sender` and `event`.
pub open spec fn answered<S, E, W: WeakSubscriber<S, E>>(w: &W, sender: Arc<S>, event: E, out: HandlerOutcome) -> bool {
    call_ensures(<W as WeakSubscriber<S, E>>::deliver, (w, sender, event), out)
}

/// `out` is what `w` answered when handed `sender` and a copy of `event`.
pub open spec fn answered_copy<S, E: Clone, W: WeakSubscriber<S, E>>(w: &W, sender: Arc<S>, event: E, out: HandlerOutcome) -> bool {
    exists|e: E| cloned(event, e) && #[trigger] answered(w, sender, e, out)
}

impl<W> EventSubscription<W> {
    /// Delivers the event through the registration's handler reference.
    pub fn process_event<S, E>(&self, sender: Arc<S>, event: E) -> (r: HandlerOutcome)
        where W: WeakSubscriber<S, E>
        ensures
            answered(&self.handler, sender, event, r),
    {
        let deliver = <W as WeakSubscriber<S, E>>::deliver;
        deliver(&self.handler, sender, event)
    }
}

/// Delivers the event to each registration of `snapshot` in order and returns what
/// each handler did, with the identifiers that the pass must remove.
pub fn deliver<S, E: Clone, W: WeakSubscriber<S, E>>(
    snapshot: &Vec<EventSubscription<W>>,
    sender: &Arc<S>,
    event: &E,
) -> (r: (Vec<HandlerOutcome>, Vec<SubscriptionId>))
    ensures
        r.0@.len() == snapshot@.len(),
        forall|k: int| 0 <= k < snapshot@.len() ==> answered_copy(&#[trigger] snapshot@[k].handler, *sender, *event, r.0@[k]),
        r.1@ == due_ids(regs_of(snapshot@), r.0@),
{
    let mut outcomes: Vec<HandlerOutcome> = Vec::new();
    let mut removed: Vec<SubscriptionId> = Vec::new();
    let mut i: usize = 0;
    while i < snapshot.len()
        invariant
            i <= snapshot@.len(),
            outcomes@.len() == i,
            forall|k: int| 0 <= k < i ==> answered_copy(&#[trigger] snapshot@[k].handler, *sender, *event, outcomes@[k]),
            removed@ == due_ids(regs_of(snapshot@.subrange(0, i as int)), outcomes@),
        decreases snapshot@.len() - i,
    {
        let sub = &snapshot[i];
        let copy = event.clone();
        let ghost e = copy;
        let outcome = sub.process_event(sender.clone(), copy);
        assert(answered(&sub.handler, *sender, e, outcome));
        let ghost regs_before = regs_of(snapshot@.subrange(0, i as int));
        let ghost outs_before = outcomes@;
        outcomes.push(outcome);
        let ghost regs_next = regs_of(snapshot@.subrange(0, i + 1));
        assert(regs_next.drop_last() =~= regs_before);
        assert(outcomes@.drop_last() =~= outs_before);
        assert(regs_next.last() == sub.reg());
        if should_remove(sub.mode, outcome) {
            removed.push(sub.id);
        }
        i += 1;
    }
    assert(snapshot@.subrange(0, snapshot@.len() as int) =~= snapshot@);
    (outcomes, removed)
}

impl<W: Clone> SubscriberList<W> {
    /// A copy of the registrations, to be walked without holding the list.
    pub fn snapshot(&self) -> (r: Vec<EventSubscription<W>>)
        ensures
            regs_of(r@) == self@,
    {
        let mut out: Vec<EventSubscription<W>> = Vec::new();
        let mut i: usize = 0;
        while i < self.len()
            invariant
                i <= self@.len(),
                regs_of(out@) == self@.subrange(0, i as int),
            decreases self@.len() - i,
        {
            let (id, handler, mode) = self.entry(i);
            let ghost before = out@;
            out.push(EventSubscription { id, handler, mode });
            assert(regs_of(out@) =~= regs_of(before).push((id, mode)));
            assert(self@.subrange(0, i + 1) =~= self@.subrange(0, i as int).push(self@[i as int]));
            i += 1;
        }
        assert(self@.subrange(0, self@.len() as int) =~= self@);
        out
    }
}

/// The registrations of one event stream; `W` is the kind of handler reference it
/// keeps, which fixes the sender and event types.
#[verifier::reject_recursive_types(W)]
pub struct Publisher<W> {
    name: String,
    subscribers: RwLock<SubscriberList<W>, spec_fn(SubscriberList<W>) -> bool>,
    dispatch_lock: RwLock<(), spec_fn(()) -> bool>,
}

impl<W> Publisher<W> {
    pub closed spec fn spec_name(&self) -> Seq<char> {
        self.name@
    }

    #[verifier::type_invariant]
    closed spec fn wf(&self) -> bool {
        &&& forall|l: SubscriberList<W>| #[trigger] self.subscribers.inv(l) == l.wf()
        &&& forall|u: ()| #[trigger] self.dispatch_lock.inv(u)
    }
}

impl<W: Clone> Publisher<W> {
    pub fn new(name: &str) -> (r: Self)
        ensures
            r.spec_name() == name@,
    {
        let list = SubscriberList::new();
        Publisher {
            name: name.to_string(),
            subscribers: RwLock::new(list, Ghost(|l: SubscriberList<W>| l.wf())),
            dispatch_lock: RwLock::new((), Ghost(|u: ()| true)),
        }
    }

    pub fn name(&self) -> (r: &str)
        ensures
            r@ == self.spec_name(),
    {
        self.name.as_str()
    }

    /// How many registrations the publisher holds right now.
    pub fn subscriber_count(&self) -> usize
    {
        proof {
            use_type_invariant(self);
        }
        let (list, guard) = self.subscribers.acquire_write();
        let n = list.len();
        guard.release_write(list);
        n
    }

    /// Whether a registration with this identifier is held right now.
    pub fn is_subscribed(&self, id: SubscriptionId) -> bool
    {
        proof {
            use_type_invariant(self);
        }
        let (list, guard) = self.subscribers.acquire_write();
        let found = list.contains(id);
        guard.release_write(list);
        found
    }

    fn subscribe_impl(&self, slot: W, mode: SubscriptionMode) -> SubscriptionId
    {
        proof {
            use_type_invariant(self);
        }
        let candidate = random_id();
        let (mut list, guard) = self.subscribers.acquire_write();
        let id = list.fresh_id(candidate);
        list.push(id, slot, mode);
        guard.release_write(list);
        id
    }

    /// Delivers `event` from `sender` to every live handler, in registration order, on
    /// the calling thread; then removes the registrations that the pass made due.
    /// Handlers run on a copy of the list, so they may subscribe and unsubscribe on
    /// this publisher; one dispatch at a time runs the pass.
    pub fn dispatch<S, E: Clone>(&self, sender: Arc<S>, event: E)
        where W: WeakSubscriber<S, E>
    {
        proof {
            use_type_invariant(self);
        }
        let (order, order_guard) = self.dispatch_lock.acquire_write();
        let (list, guard) = self.subscribers.acquire_write();
        let snapshot = list.snapshot();
        guard.release_write(list);

        let (_outcomes, removed) = deliver(&snapshot, &sender, &event);

        let (mut list, guard) = self.subscribers.acquire_write();
        list.purge(&removed);
        guard.release_write(list);
        order_guard.release_write(order);
    }

    /// Registers the handler, held through a non-owning reference, until it is
    /// unsubscribed, released, or asks to leave.
    pub fn subscribe<T>(&self, subscriber: Arc<T>) -> SubscriptionId
        where W: Downgrade<T>
    {
        proof {
            use_type_invariant(self);
        }
        self.subscribe_impl(W::downgrade(&subscriber), SubscriptionMode::All)
    }

    /// Registers the handler for the next event only.
    pub fn subscribe_once<T>(&self, subscriber: Arc<T>) -> SubscriptionId
        where W: Downgrade<T>
    {
        proof {
            use_type_invariant(self);
        }
        self.subscribe_impl(W::downgrade(&subscriber), SubscriptionMode::Once)
    }

    /// Removes the registration with this identifier, if there is one.
    pub fn unsubscribe(&self, id: SubscriptionId)
    {
        proof {
            use_type_invariant(self);
        }
        let mut ids: Vec<SubscriptionId> = Vec::new();
        ids.push(id);
        let (mut list, guard) = self.subscribers.acquire_write();
        list.purge(&ids);
        guard.release_write(list);
    }
}

impl<S, E, W: Clone> Subscribable<S, E, W> for Publisher<W> {
    fn name(&self) -> &str {
        Publisher::name(self)
    }

    fn subscribe<T>(&self, subscriber: Arc<T>) -> SubscriptionId
        where W: Downgrade<T>
    {
        Publisher::subscribe(self, subscriber)
    }

    fn subscribe_once<T>(&self, subscriber: Arc<T>) -> SubscriptionId
        where W: Downgrade<T>
    {
        Publisher::subscribe_once(self, subscriber)
    }
}

impl<W: Clone> Unsubscribable for Publisher<W> {
    fn unsubscribe(&self, id: SubscriptionId) {
        Publisher::unsubscribe(self, id)
    }
}

} // verus!
