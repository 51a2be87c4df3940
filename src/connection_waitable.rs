//! A waitable for the outcome of a connection attempt: it ends on a connection in the
//! expected role (success) or on the timeout that ends the attempt (failure).

use std::sync::mpsc::{Receiver, Sender};
use std::sync::Arc;
use std::time::Duration;
use vstd::prelude::*;
use vstd::rwlock::RwLock;

use crate::driver_events::{DriverSubscriberRefs, NrfDriverEvents};
use crate::events::{GapEventConnected, GapEventTimeout};
use crate::gap::{BleGapRole, BleGapTimeoutSource};
use crate::publisher::{Downgrade, Subscribable, Subscriber, Unsubscribable};
use crate::subscription::{SubscriberAction, SubscriptionId};
use crate::waitable::{all_callable, channel, receive, receive_timeout, send, take_pending, AsyncEventHandler, WaitError, Waitable};

verus! {

/// A sender type that carries the router of its driver.
pub trait DriverEventSource<R: DriverSubscriberRefs<Sender = Self>>: Sized {
    fn events(&self) -> &NrfDriverEvents<R>;
}

/// A GAP timeout ends an attempt made in `role` when it is the timeout of that role's
/// procedure: advertising for a peripheral, connecting for a central.
pub open spec fn ends_on_timeout(role: BleGapRole, src: BleGapTimeoutSource) -> bool {
    (role == BleGapRole::Peripheral && src == BleGapTimeoutSource::Advertising)
        || (role == BleGapRole::Central && src == BleGapTimeoutSource::Conn)
}

/// A connection ends an attempt made in `role` when it was made in that same role.
pub open spec fn ends_on_connect(role: BleGapRole, connected_role: BleGapRole) -> bool {
    (role == BleGapRole::Peripheral && connected_role == BleGapRole::Peripheral)
        || (role == BleGapRole::Central && connected_role == BleGapRole::Central)
}

pub fn timeout_ends_attempt(role: BleGapRole, src: BleGapTimeoutSource) -> (r: bool)
    ensures
        r == ends_on_timeout(role, src),
{
    match (role, src) {
        (BleGapRole::Peripheral, BleGapTimeoutSource::Advertising) | (BleGapRole::Central, BleGapTimeoutSource::Conn) => true,
        _ => false,
    }
}

pub fn connection_ends_attempt(role: BleGapRole, connected_role: BleGapRole) -> (r: bool)
    ensures
        r == ends_on_connect(role, connected_role),
{
    match (role, connected_role) {
        (BleGapRole::Peripheral, BleGapRole::Peripheral) | (BleGapRole::Central, BleGapRole::Central) => true,
        _ => false,
    }
}

/// What a finished attempt hands out: the peer on success, nothing on a timeout.
pub open spec fn attempt_value<P>(peer: Arc<P>, success: bool) -> Option<Arc<P>> {
    if success {
        Some(peer)
    } else {
        None
    }
}

/// Runs each callback once, in order, with what the attempt hands out.
pub fn run_outcome_callbacks<P, F: FnOnce(Option<Arc<P>>)>(callbacks: Vec<F>, peer: &Arc<P>, success: bool)
    requires
        all_callable::<Option<Arc<P>>, F>(callbacks@),
    ensures
        forall|i: int| 0 <= i < callbacks@.len() ==> #[trigger] callbacks@[i].ensures((attempt_value(*peer, success),), ()),
{
    let mut rest = callbacks;
    let ghost all = rest@;
    let total = rest.len();
    let mut i: usize = 0;
    while i < total
        invariant
            i <= all.len() == total,
            rest@ == all.subrange(i as int, all.len() as int),
            all_callable::<Option<Arc<P>>, F>(all),
            all == callbacks@,
            forall|k: int| 0 <= k < i ==> #[trigger] all[k].ensures((attempt_value(*peer, success),), ()),
        decreases total - i,
    {
        let cb = rest.remove(0);
        assert(cb == all[i as int]);
        cb(attempt_result(peer, success));
        i += 1;
        assert(rest@ =~= all.subrange(i as int, all.len() as int));
    }
}

/// What a finished attempt hands out: the peer on success, nothing on a timeout.
pub fn attempt_result<P>(peer: &Arc<P>, success: bool) -> (r: Option<Arc<P>>)
    ensures
        r == attempt_value(*peer, success),
{
    if success {
        Some(peer.clone())
    } else {
        None
    }
}

#[verifier::reject_recursive_types(S)]
#[verifier::reject_recursive_types(R)]
#[verifier::reject_recursive_types(P)]
#[verifier::reject_recursive_types(F)]
pub struct ConnectionWaitable<S, R, P, F: FnOnce(Option<Arc<P>>)> {
    role: BleGapRole,
    peer: Arc<P>,
    sender: RwLock<Option<Sender<bool>>, spec_fn(Option<Sender<bool>>) -> bool>,
    receiver: Receiver<bool>,
    timeout_sub_id: RwLock<Option<SubscriptionId>, spec_fn(Option<SubscriptionId>) -> bool>,
    connect_sub_id: RwLock<Option<SubscriptionId>, spec_fn(Option<SubscriptionId>) -> bool>,
    callbacks: RwLock<Vec<F>, spec_fn(Vec<F>) -> bool>,
    source: std::marker::PhantomData<(S, R)>,
}

impl<S, R, P, F: FnOnce(Option<Arc<P>>)> ConnectionWaitable<S, R, P, F> {
    #[verifier::type_invariant]
    closed spec fn wf(&self) -> bool {
        &&& forall|v: Vec<F>| #[trigger] self.callbacks.inv(v) == all_callable::<Option<Arc<P>>, F>(v@)
        &&& forall|v: Option<SubscriptionId>| #[trigger] self.timeout_sub_id.inv(v)
        &&& forall|v: Option<SubscriptionId>| #[trigger] self.connect_sub_id.inv(v)
        &&& forall|t: Option<Sender<bool>>| #[trigger] self.sender.inv(t)
    }

    pub closed spec fn spec_role(&self) -> BleGapRole {
        self.role
    }
}

impl<S: DriverEventSource<R>, R: DriverSubscriberRefs<Sender = S>, P, F: FnOnce(Option<Arc<P>>)> ConnectionWaitable<S, R, P, F> {
    /// Creates the waitable and subscribes it to the connected and timeout events of
    /// the driver's router.
    pub fn new(driver: Arc<S>, peer: Arc<P>, role: BleGapRole) -> (r: Arc<Self>)
        where R::Connected: Downgrade<Self>, R::Timeout: Downgrade<Self>
        ensures
            r.spec_role() == role,
    {
        let (tx, receiver) = channel();
        let waitable = Arc::new(
            ConnectionWaitable {
                role,
                peer,
                sender: RwLock::new(Some(tx), Ghost(|t: Option<Sender<bool>>| true)),
                receiver,
                timeout_sub_id: RwLock::new(None, Ghost(|v: Option<SubscriptionId>| true)),
                connect_sub_id: RwLock::new(None, Ghost(|v: Option<SubscriptionId>| true)),
                callbacks: RwLock::new(Vec::new(), Ghost(|v: Vec<F>| all_callable::<Option<Arc<P>>, F>(v@))),
                source: std::marker::PhantomData,
            },
        );
        proof {
            use_type_invariant(&*waitable);
        }
        let connected_id = driver.events().connected.subscribe(waitable.clone());
        let timeout_id = driver.events().gap_timeout.subscribe(waitable.clone());
        let (_old, guard) = waitable.timeout_sub_id.acquire_write();
        guard.release_write(Some(timeout_id));
        let (_old, guard) = waitable.connect_sub_id.acquire_write();
        guard.release_write(Some(connected_id));
        waitable
    }

    /// Ends the attempt: withdraws both registrations, hands the outcome to the
    /// waiter, and runs every queued callback once with the peer or with nothing.
    fn event_received(&self, driver: Arc<S>, success: bool) {
        proof {
            use_type_invariant(self);
        }
        let (timeout_id, guard) = self.timeout_sub_id.acquire_write();
        guard.release_write(timeout_id);
        if let Some(id) = timeout_id {
            driver.events().gap_timeout.unsubscribe(id);
        }
        let (connect_id, guard) = self.connect_sub_id.acquire_write();
        guard.release_write(connect_id);
        if let Some(id) = connect_id {
            driver.events().connected.unsubscribe(id);
        }
        let (tx, tx_guard) = self.sender.acquire_write();
        tx_guard.release_write(None);
        if let Some(tx) = tx {
            let _queued = send(&tx, success);
        }
        let (mut pending, guard) = self.callbacks.acquire_write();
        let due = take_pending(&mut pending);
        guard.release_write(pending);
        run_outcome_callbacks(due, &self.peer, success);
    }
}

impl<S: DriverEventSource<R>, R: DriverSubscriberRefs<Sender = S>, P, F: FnOnce(Option<Arc<P>>)> Waitable<Option<Arc<P>>> for ConnectionWaitable<S, R, P, F> {
    fn wait_timeout(&self, timeout: Duration) -> Result<Option<Arc<P>>, WaitError> {
        match receive_timeout(&self.receiver, timeout) {
            Ok(success) => Ok(attempt_result(&self.peer, success)),
            Err(e) => Err(e),
        }
    }

    fn wait(&self) -> Result<Option<Arc<P>>, WaitError> {
        match receive(&self.receiver) {
            Ok(success) => Ok(attempt_result(&self.peer, success)),
            Err(e) => Err(e),
        }
    }
}

impl<S: DriverEventSource<R>, R: DriverSubscriberRefs<Sender = S>, P, F: FnOnce(Option<Arc<P>>)> AsyncEventHandler<Option<Arc<P>>, F> for ConnectionWaitable<S, R, P, F> {
    fn then(&self, f: F) {
        proof {
            use_type_invariant(self);
        }
        let (mut pending, guard) = self.callbacks.acquire_write();
        let ghost before = pending@;
        pending.push(f);
        assert(all_callable::<Option<Arc<P>>, F>(pending@)) by {
            assert forall|i: int, a: Option<Arc<P>>| 0 <= i < pending@.len() implies #[trigger] pending@[i].requires((a,)) by {
                if i < pending@.len() - 1 {
                    assert(pending@[i] == before[i]);
                }
            }
        }
        guard.release_write(pending);
    }
}

impl<S: DriverEventSource<R>, R: DriverSubscriberRefs<Sender = S>, P, F: FnOnce(Option<Arc<P>>)> Subscriber<S, GapEventTimeout> for ConnectionWaitable<S, R, P, F> {
    fn handle(self: Arc<Self>, sender: Arc<S>, event: GapEventTimeout) -> Option<SubscriberAction> {
        if timeout_ends_attempt(self.role, event.src) {
            self.event_received(sender, false);
        }
        None
    }
}

impl<S: DriverEventSource<R>, R: DriverSubscriberRefs<Sender = S>, P, F: FnOnce(Option<Arc<P>>)> Subscriber<S, GapEventConnected> for ConnectionWaitable<S, R, P, F> {
    fn handle(self: Arc<Self>, sender: Arc<S>, event: GapEventConnected) -> Option<SubscriberAction> {
        if connection_ends_attempt(self.role, event.role) {
            self.event_received(sender, true);
        }
        None
    }
}

} // verus!
