//! One-shot bridges from a pushed event to a blocking wait or a deferred callback.

use std::sync::mpsc::{Receiver, Sender};
use std::sync::Arc;
use std::time::Duration;
use vstd::prelude::*;
use vstd::rwlock::RwLock;

use crate::publisher::{Downgrade, Subscribable, Subscriber};
use crate::subscription::SubscriberAction;

verus! {

/// Declares std::sync::mpsc::Sender, carried opaquely.
#[verifier::external_type_specification]
#[verifier::external_body]
#[verifier::reject_recursive_types(T)]
pub struct ExSender<T>(Sender<T>);

/// Declares std::sync::mpsc::Receiver, carried opaquely.
#[verifier::external_type_specification]
#[verifier::external_body]
#[verifier::reject_recursive_types(T)]
pub struct ExReceiver<T>(Receiver<T>);

/// Why a wait ended without an event.
#[derive(Clone, Copy, Debug, PartialEq, Eq, Structural)]
pub enum WaitError {
    /// The time given to `wait_timeout` elapsed first.
    Timeout,
    /// The sending side is gone and nothing was delivered.
    ChannelClosed,
}

/// The sender and the event, as one fired waitable hands them out.
pub type EventArgs<S, E> = (Arc<S>, E);

/// Relies on std::sync::mpsc::channel: an unbounded channel, whose sends never block.
#[verifier::external_body]
pub(crate) fn channel<T>() -> (r: (Sender<T>, Receiver<T>)) {
    std::sync::mpsc::channel()
}

/// Relies on std::sync::mpsc::Sender::send: queues the value; it fails (and the
/// value is dropped) only once the receiver is gone. Returns whether it was queued.
#[verifier::external_body]
pub(crate) fn send<T>(tx: &Sender<T>, value: T) -> (r: bool) {
    tx.send(value).is_ok()
}

/// Relies on std::sync::mpsc::Receiver::recv: blocks for the next value; fails only
/// when every sender is gone and nothing is queued.
#[verifier::external_body]
pub(crate) fn receive<T>(rx: &Receiver<T>) -> (r: Result<T, WaitError>)
    ensures
        r matches Err(e) ==> e == WaitError::ChannelClosed,
{
    match rx.recv() {
        Ok(v) => Ok(v),
        Err(std::sync::mpsc::RecvError) => Err(WaitError::ChannelClosed),
    }
}

/// Relies on std::sync::mpsc::Receiver::recv_timeout: like `receive`, but gives up
/// with `Timeout` once the duration has elapsed; a value that arrives later stays
/// queued for the next receive.
#[verifier::external_body]
pub(crate) fn receive_timeout<T>(rx: &Receiver<T>, timeout: Duration) -> (r: Result<T, WaitError>) {
    match rx.recv_timeout(timeout) {
        Ok(v) => Ok(v),
        Err(std::sync::mpsc::RecvTimeoutError::Timeout) => Err(WaitError::Timeout),
        Err(std::sync::mpsc::RecvTimeoutError::Disconnected) => Err(WaitError::ChannelClosed),
    }
}

/// A source of one value that a thread can block on.
pub trait Waitable<T> {
    fn wait_timeout(&self, timeout: Duration) -> Result<T, WaitError>;

    /// Blocks for the value; the only way it fails is a closed channel.
    fn wait(&self) -> (r: Result<T, WaitError>)
        ensures
            r matches Err(e) ==> e == WaitError::ChannelClosed,
    ;
}

/// A source of one value that callbacks can be queued on.
pub trait AsyncEventHandler<T, F: FnOnce(T)> {
    fn then(&self, f: F)
        requires
            forall|a: T| f.requires((a,)),
    ;
}

/// Every queued callback accepts any arguments.
pub open spec fn all_callable<T, F: FnOnce(T)>(callbacks: Seq<F>) -> bool {
    forall|i: int, a: T| 0 <= i < callbacks.len() ==> #[trigger] callbacks[i].requires((a,))
}

/// Takes every queued callback out of `pending`, in the order they were queued.
pub fn take_pending<F>(pending: &mut Vec<F>) -> (r: Vec<F>)
    ensures
        r@ == old(pending)@,
        final(pending)@ == Seq::<F>::empty(),
{
    let mut taken: Vec<F> = Vec::new();
    std::mem::swap(&mut taken, pending);
    taken
}

/// The callback has run to completion on the sender and a copy of the event.
pub open spec fn ran_with<S, E: Clone, F: FnOnce(EventArgs<S, E>)>(cb: F, sender: Arc<S>, event: E) -> bool {
    exists|a: EventArgs<S, E>| a.0 == sender && cloned(event, a.1) && #[trigger] cb.ensures((a,), ())
}

/// Runs each callback once, in order, with the sender and a copy of the event.
pub fn run_callbacks<S, E: Clone, F: FnOnce(EventArgs<S, E>)>(callbacks: Vec<F>, sender: &Arc<S>, event: &E)
    requires
        all_callable::<EventArgs<S, E>, F>(callbacks@),
    ensures
        forall|i: int| 0 <= i < callbacks@.len() ==> ran_with(#[trigger] callbacks@[i], *sender, *event),
{
    let mut rest = callbacks;
    let ghost all = rest@;
    let total = rest.len();
    let mut i: usize = 0;
    while i < total
        invariant
            i <= all.len() == total,
            rest@ == all.subrange(i as int, all.len() as int),
            all_callable::<EventArgs<S, E>, F>(all),
            all == callbacks@,
            forall|k: int| 0 <= k < i ==> ran_with(#[trigger] all[k], *sender, *event),
        decreases rest@.len(),
    {
        let cb = rest.remove(0);
        assert(cb == all[i as int]);
        let args = (sender.clone(), event.clone());
        let ghost a = args;
        cb(args);
        assert(all[i as int].ensures((a,), ()));
        i += 1;
        assert(rest@ =~= all.subrange(i as int, all.len() as int));
    }
}

/// A one-shot waitable bound to one publisher: the first event it receives is handed
/// to a blocking waiter through a channel and to every queued callback, and then it
/// leaves the publisher.
#[verifier::reject_recursive_types(S)]
#[verifier::reject_recursive_types(E)]
#[verifier::reject_recursive_types(F)]
pub struct EventWaitable<S, E, F: FnOnce(EventArgs<S, E>)> {
    sender: RwLock<Option<Sender<EventArgs<S, E>>>, spec_fn(Option<Sender<EventArgs<S, E>>>) -> bool>,
    receiver: Receiver<EventArgs<S, E>>,
    callbacks: RwLock<Vec<F>, spec_fn(Vec<F>) -> bool>,
}

impl<S, E, F: FnOnce(EventArgs<S, E>)> EventWaitable<S, E, F> {
    #[verifier::type_invariant]
    closed spec fn wf(&self) -> bool {
        &&& forall|v: Vec<F>| #[trigger] self.callbacks.inv(v) == all_callable::<EventArgs<S, E>, F>(v@)
        &&& forall|t: Option<Sender<EventArgs<S, E>>>| #[trigger] self.sender.inv(t)
    }
}

impl<S, E: Clone, F: FnOnce(EventArgs<S, E>)> EventWaitable<S, E, F> {
    /// Creates the waitable and subscribes it to `event`.
    pub fn new<W, P: Subscribable<S, E, W>>(event: &P) -> Arc<Self>
        where W: Downgrade<Self>
    {
        let (tx, receiver) = channel();
        let waitable = Arc::new(
            EventWaitable {
                sender: RwLock::new(Some(tx), Ghost(|t: Option<Sender<EventArgs<S, E>>>| true)),
                receiver,
                callbacks: RwLock::new(
                    Vec::new(),
                    Ghost(|v: Vec<F>| all_callable::<EventArgs<S, E>, F>(v@)),
                ),
            },
        );
        event.subscribe(waitable.clone());
        waitable
    }
}

impl<S, E: Clone, F: FnOnce(EventArgs<S, E>)> Waitable<EventArgs<S, E>> for EventWaitable<S, E, F> {
    fn wait_timeout(&self, timeout: Duration) -> Result<EventArgs<S, E>, WaitError> {
        receive_timeout(&self.receiver, timeout)
    }

    fn wait(&self) -> Result<EventArgs<S, E>, WaitError> {
        receive(&self.receiver)
    }
}

impl<S, E: Clone, F: FnOnce(EventArgs<S, E>)> AsyncEventHandler<EventArgs<S, E>, F> for EventWaitable<S, E, F> {
    fn then(&self, f: F) {
        proof {
            use_type_invariant(self);
        }
        let (mut pending, guard) = self.callbacks.acquire_write();
        let ghost before = pending@;
        pending.push(f);
        assert(all_callable::<EventArgs<S, E>, F>(pending@)) by {
            assert forall|i: int, a: EventArgs<S, E>| 0 <= i < pending@.len() implies #[trigger] pending@[i].requires((a,)) by {
                if i < pending@.len() - 1 {
                    assert(pending@[i] == before[i]);
                }
            }
        }
        guard.release_write(pending);
    }
}

impl<S, E: Clone, F: FnOnce(EventArgs<S, E>)> EventWaitable<S, E, F> {
    /// The one transition of the waitable: hands the event to the channel and closes
    /// its sending side (a later wait, once the event is taken, fails with
    /// `ChannelClosed` instead of blocking), takes every queued callback out of the
    /// queue and runs each once, in order, then asks to leave the publisher.
    pub fn fire(&self, sender: Arc<S>, event: E) -> (r: Option<SubscriberAction>)
        ensures
            r == Some(SubscriberAction::Unsubscribe),
    {
        proof {
            use_type_invariant(self);
        }
        let (tx, tx_guard) = self.sender.acquire_write();
        tx_guard.release_write(None);
        if let Some(tx) = tx {
            let _queued = send(&tx, (sender.clone(), event.clone()));
        }
        let (mut pending, guard) = self.callbacks.acquire_write();
        let due = take_pending(&mut pending);
        guard.release_write(pending);
        run_callbacks(due, &sender, &event);
        Some(SubscriberAction::Unsubscribe)
    }
}

impl<S, E: Clone, F: FnOnce(EventArgs<S, E>)> Subscriber<S, E> for EventWaitable<S, E, F> {
    fn handle(self: Arc<Self>, sender: Arc<S>, event: E) -> Option<SubscriberAction> {
        self.fire(sender, event)
    }
}

} // verus!
