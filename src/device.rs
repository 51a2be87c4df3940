//! A device: one driver with its peripheral-side peer and advertiser.

use std::sync::Arc;
use vstd::prelude::*;

use crate::advertiser::{Advertiser, AdvertiserSubscriberRefs};
use crate::connection_waitable::DriverEventSource;
use crate::driver_events::DriverSubscriberRefs;
use crate::events::{CommonEventMemRequest, GapEventConnected};
use crate::gap::{BleGapConnParams, BleGapRole};
use crate::peer::{GapCommands, Peer, PeerSubscriberRefs};
use crate::publisher::{Downgrade, Subscriber};
use crate::subscription::SubscriberAction;

verus! {

/// The connection parameters a device asks for: intervals of 15 to 30 ms, a
/// supervision timeout of 4 s, no slave latency.
pub fn default_conn_params() -> (r: BleGapConnParams)
    ensures
        r == (BleGapConnParams { min_conn_interval: 12, max_conn_interval: 24, slave_latency: 0, conn_sup_timeout: 400 }),
{
    BleGapConnParams { min_conn_interval: 12, max_conn_interval: 24, slave_latency: 0, conn_sup_timeout: 400 }
}

#[verifier::reject_recursive_types(S)]
#[verifier::reject_recursive_types(R)]
#[verifier::reject_recursive_types(Q)]
#[verifier::reject_recursive_types(T)]
pub struct BleDevice<S, R, Q: PeerSubscriberRefs<Peer<S, R, Q>>, T: AdvertiserSubscriberRefs<Advertiser<S, R, Q, T>>> {
    driver: Arc<S>,
    default_conn_params: BleGapConnParams,
    pub advertiser: Arc<Advertiser<S, R, Q, T>>,
    pub central: Arc<Peer<S, R, Q>>,
}

impl<
    S: DriverEventSource<R> + GapCommands,
    R: DriverSubscriberRefs<Sender = S>,
    Q: PeerSubscriberRefs<Peer<S, R, Q>>,
    T: AdvertiserSubscriberRefs<Advertiser<S, R, Q, T>>,
> BleDevice<S, R, Q, T> {
    /// A device on `driver`: a peripheral-side peer, an advertiser that follows it,
    /// and the device itself subscribed to connections and memory requests.
    pub fn new(driver: &Arc<S>) -> Arc<Self>
        where
            R::Disconnected: Downgrade<Peer<S, R, Q>>,
            R::Timeout: Downgrade<Advertiser<S, R, Q, T>>,
            Q::Connect: Downgrade<Advertiser<S, R, Q, T>>,
            Q::Disconnect: Downgrade<Advertiser<S, R, Q, T>>,
            R::Connected: Downgrade<Self>,
            R::MemRequest: Downgrade<Self>,
            R::PhyUpdateRequest: Downgrade<Peer<S, R, Q>>,
            R::PhyUpdate: Downgrade<Peer<S, R, Q>>,
            R::DataLengthUpdateRequest: Downgrade<Peer<S, R, Q>>,
            R::DataLengthUpdate: Downgrade<Peer<S, R, Q>>,
    {
        let conn_params = default_conn_params();
        let central = Peer::new(driver, BleGapRole::Peripheral, &conn_params);
        let advertiser = Advertiser::new(driver, &central);
        let device = Arc::new(BleDevice { driver: driver.clone(), default_conn_params: conn_params, advertiser, central });
        driver.events().connected.subscribe(device.clone());
        driver.events().user_mem_request.subscribe(device.clone());
        device
    }

    pub fn default_conn_params(&self) -> BleGapConnParams {
        self.default_conn_params
    }
}

impl<
    S: DriverEventSource<R> + GapCommands,
    R: DriverSubscriberRefs<Sender = S>,
    Q: PeerSubscriberRefs<Peer<S, R, Q>>,
    T: AdvertiserSubscriberRefs<Advertiser<S, R, Q, T>>,
> Subscriber<S, CommonEventMemRequest> for BleDevice<S, R, Q, T> {
    /// Answers a peer's request for user memory: this device offers none.
    fn handle(self: Arc<Self>, sender: Arc<S>, event: CommonEventMemRequest) -> Option<SubscriberAction> {
        let _replied = sender.ble_user_mem_reply(event.conn_handle);
        None
    }
}

impl<
    S: DriverEventSource<R> + GapCommands,
    R: DriverSubscriberRefs<Sender = S>,
    Q: PeerSubscriberRefs<Peer<S, R, Q>>,
    T: AdvertiserSubscriberRefs<Advertiser<S, R, Q, T>>,
> Subscriber<S, GapEventConnected> for BleDevice<S, R, Q, T>
    where
        R::PhyUpdateRequest: Downgrade<Peer<S, R, Q>>,
        R::PhyUpdate: Downgrade<Peer<S, R, Q>>,
        R::DataLengthUpdateRequest: Downgrade<Peer<S, R, Q>>,
        R::DataLengthUpdate: Downgrade<Peer<S, R, Q>>,
{
    /// A connection made while advertising belongs to the peripheral-side peer.
    fn handle(self: Arc<Self>, _sender: Arc<S>, event: GapEventConnected) -> Option<SubscriberAction> {
        if event.role == BleGapRole::Peripheral {
            self.central.peer_connected(event.conn_handle, &event.address, &event.conn_params);
        }
        None
    }
}

} // verus!
