//! The router: one publisher per event kind of the driver, and the demultiplexing of
//! decoded events onto them.

use std::sync::Arc;
use vstd::prelude::*;

use crate::ble_event::{
    BleEvent, BleEventData, BleEventDataType, BleEventId, CommonEvent, CommonEventId, GapEvent,
    GapEventId,
};
use crate::events::{
    CommonEventMemRelease, CommonEventMemRequest, GapEventConnected, GapEventDataLengthUpdate,
    GapEventDataLengthUpdateRequest, GapEventDisconnected, GapEventPhyUpdate,
    GapEventPhyUpdateRequest, GapEventTimeout,
};
use crate::publisher::{Downgrade, Publisher, Subscribable, Unsubscribable, WeakSubscriber};
use crate::subscription::SubscriptionId;

verus! {

impl BleEventDataType for CommonEventMemRequest {
    fn id() -> BleEventId {
        BleEventId::Common(CommonEventId::MemRequest)
    }
}

impl BleEventDataType for CommonEventMemRelease {
    fn id() -> BleEventId {
        BleEventId::Common(CommonEventId::MemRelease)
    }
}

impl BleEventDataType for GapEventConnected {
    fn id() -> BleEventId {
        BleEventId::Gap(GapEventId::Connected)
    }
}

impl BleEventDataType for GapEventDisconnected {
    fn id() -> BleEventId {
        BleEventId::Gap(GapEventId::Disconnected)
    }
}

impl BleEventDataType for GapEventTimeout {
    fn id() -> BleEventId {
        BleEventId::Gap(GapEventId::Timeout)
    }
}

impl BleEventDataType for GapEventPhyUpdateRequest {
    fn id() -> BleEventId {
        BleEventId::Gap(GapEventId::PhyUpdateRequest)
    }
}

impl BleEventDataType for GapEventPhyUpdate {
    fn id() -> BleEventId {
        BleEventId::Gap(GapEventId::PhyUpdate)
    }
}

impl BleEventDataType for GapEventDataLengthUpdateRequest {
    fn id() -> BleEventId {
        BleEventId::Gap(GapEventId::DataLengthUpdateRequest)
    }
}

impl BleEventDataType for GapEventDataLengthUpdate {
    fn id() -> BleEventId {
        BleEventId::Gap(GapEventId::DataLengthUpdate)
    }
}

/// The publisher of one event kind of the driver.
#[verifier::reject_recursive_types(W)]
pub struct NrfEventPublisher<W> {
    id: BleEventId,
    publisher: Publisher<W>,
}

impl<W> NrfEventPublisher<W> {
    pub closed spec fn kind(&self) -> BleEventId {
        self.id
    }
}

impl<W: Clone> NrfEventPublisher<W> {
    pub fn new(name: &str, id: BleEventId) -> (r: Self)
        ensures
            r.kind() == id,
    {
        NrfEventPublisher { id, publisher: Publisher::new(name) }
    }

    pub fn id(&self) -> (r: BleEventId)
        ensures
            r == self.kind(),
    {
        self.id
    }

    pub fn dispatch<S, E: Clone>(&self, sender: Arc<S>, event: E)
        where W: WeakSubscriber<S, E>
    {
        self.publisher.dispatch(sender, event)
    }

    pub fn subscriber_count(&self) -> usize {
        self.publisher.subscriber_count()
    }

    pub fn name(&self) -> &str {
        self.publisher.name()
    }

    pub fn subscribe<T>(&self, subscriber: Arc<T>) -> SubscriptionId
        where W: Downgrade<T>
    {
        self.publisher.subscribe(subscriber)
    }

    pub fn subscribe_once<T>(&self, subscriber: Arc<T>) -> SubscriptionId
        where W: Downgrade<T>
    {
        self.publisher.subscribe_once(subscriber)
    }

    pub fn unsubscribe(&self, id: SubscriptionId) {
        self.publisher.unsubscribe(id)
    }
}

impl<S, E, W: Clone> Subscribable<S, E, W> for NrfEventPublisher<W> {
    fn name(&self) -> &str {
        NrfEventPublisher::name(self)
    }

    fn subscribe<T>(&self, subscriber: Arc<T>) -> SubscriptionId
        where W: Downgrade<T>
    {
        NrfEventPublisher::subscribe(self, subscriber)
    }

    fn subscribe_once<T>(&self, subscriber: Arc<T>) -> SubscriptionId
        where W: Downgrade<T>
    {
        NrfEventPublisher::subscribe_once(self, subscriber)
    }
}

impl<W: Clone> Unsubscribable for NrfEventPublisher<W> {
    fn unsubscribe(&self, id: SubscriptionId) {
        NrfEventPublisher::unsubscribe(self, id)
    }
}

/// The handler references a router keeps, one type per event kind, for events sent
/// by `Sender`.
pub trait DriverSubscriberRefs {
    type Sender;
    type MemRequest: WeakSubscriber<Self::Sender, CommonEventMemRequest> + Clone;
    type MemRelease: WeakSubscriber<Self::Sender, CommonEventMemRelease> + Clone;
    type Connected: WeakSubscriber<Self::Sender, GapEventConnected> + Clone;
    type Disconnected: WeakSubscriber<Self::Sender, GapEventDisconnected> + Clone;
    type Timeout: WeakSubscriber<Self::Sender, GapEventTimeout> + Clone;
    type PhyUpdateRequest: WeakSubscriber<Self::Sender, GapEventPhyUpdateRequest> + Clone;
    type PhyUpdate: WeakSubscriber<Self::Sender, GapEventPhyUpdate> + Clone;
    type DataLengthUpdateRequest: WeakSubscriber<Self::Sender, GapEventDataLengthUpdateRequest> + Clone;
    type DataLengthUpdate: WeakSubscriber<Self::Sender, GapEventDataLengthUpdate> + Clone;
}

/// One publisher per event kind of a driver.
#[verifier::reject_recursive_types(R)]
pub struct NrfDriverEvents<R: DriverSubscriberRefs> {
    pub user_mem_request: NrfEventPublisher<R::MemRequest>,
    pub user_mem_release: NrfEventPublisher<R::MemRelease>,
    pub connected: NrfEventPublisher<R::Connected>,
    pub disconnected: NrfEventPublisher<R::Disconnected>,
    pub gap_timeout: NrfEventPublisher<R::Timeout>,
    pub phy_update_request: NrfEventPublisher<R::PhyUpdateRequest>,
    pub phy_update: NrfEventPublisher<R::PhyUpdate>,
    pub data_length_update_request: NrfEventPublisher<R::DataLengthUpdateRequest>,
    pub data_length_update: NrfEventPublisher<R::DataLengthUpdate>,
}

impl<R: DriverSubscriberRefs> NrfDriverEvents<R> {
    /// Every publisher serves the kind its field is named for.
    pub open spec fn wf(&self) -> bool {
        &&& self.user_mem_request.kind() == BleEventId::Common(CommonEventId::MemRequest)
        &&& self.user_mem_release.kind() == BleEventId::Common(CommonEventId::MemRelease)
        &&& self.connected.kind() == BleEventId::Gap(GapEventId::Connected)
        &&& self.disconnected.kind() == BleEventId::Gap(GapEventId::Disconnected)
        &&& self.gap_timeout.kind() == BleEventId::Gap(GapEventId::Timeout)
        &&& self.phy_update_request.kind() == BleEventId::Gap(GapEventId::PhyUpdateRequest)
        &&& self.phy_update.kind() == BleEventId::Gap(GapEventId::PhyUpdate)
        &&& self.data_length_update_request.kind() == BleEventId::Gap(GapEventId::DataLengthUpdateRequest)
        &&& self.data_length_update.kind() == BleEventId::Gap(GapEventId::DataLengthUpdate)
    }

    pub fn new() -> (r: Self)
        ensures
            r.wf(),
    {
        NrfDriverEvents {
            user_mem_request: NrfEventPublisher::new("User Mem Request", BleEventId::Common(CommonEventId::MemRequest)),
            user_mem_release: NrfEventPublisher::new("User Mem Release", BleEventId::Common(CommonEventId::MemRelease)),
            connected: NrfEventPublisher::new("Connected", BleEventId::Gap(GapEventId::Connected)),
            disconnected: NrfEventPublisher::new("Disconnected", BleEventId::Gap(GapEventId::Disconnected)),
            gap_timeout: NrfEventPublisher::new("Gap Timeout", BleEventId::Gap(GapEventId::Timeout)),
            phy_update_request: NrfEventPublisher::new("Phy Update Request", BleEventId::Gap(GapEventId::PhyUpdateRequest)),
            phy_update: NrfEventPublisher::new("Phy Update", BleEventId::Gap(GapEventId::PhyUpdate)),
            data_length_update_request: NrfEventPublisher::new(
                "Data Length Update Request",
                BleEventId::Gap(GapEventId::DataLengthUpdateRequest),
            ),
            data_length_update: NrfEventPublisher::new("Data Length Update", BleEventId::Gap(GapEventId::DataLengthUpdate)),
        }
    }

    /// Hands the decoded event to the publisher of its kind.
    pub fn dispatch(&self, driver: Arc<R::Sender>, ble_event: BleEventData) {
        match ble_event {
            BleEventData::Common(sub_event) => match sub_event {
                CommonEvent::MemRequest(e) => self.user_mem_request.dispatch(driver, e),
                CommonEvent::MemRelease(e) => self.user_mem_release.dispatch(driver, e),
            },
            BleEventData::Gap(sub_event) => match sub_event {
                GapEvent::Timeout(e) => self.gap_timeout.dispatch(driver, e),
                GapEvent::Connected(e) => self.connected.dispatch(driver, e),
                GapEvent::Disconnected(e) => self.disconnected.dispatch(driver, e),
                GapEvent::PhyUpdateRequest(e) => self.phy_update_request.dispatch(driver, e),
                GapEvent::PhyUpdate(e) => self.phy_update.dispatch(driver, e),
                GapEvent::DataLengthUpdateRequest(e) => self.data_length_update_request.dispatch(driver, e),
                GapEvent::DataLengthUpdate(e) => self.data_length_update.dispatch(driver, e),
            },
        }
    }

    /// Hands a raw event to the publisher of its kind; an event whose kind this
    /// binding does not decode is dropped. Returns whether it was handed on.
    pub fn process_event(&self, driver: Arc<R::Sender>, ble_event: BleEvent) -> (r: bool)
        ensures
            r == ble_event.data is Some,
    {
        match ble_event.data {
            Some(data) => {
                self.dispatch(driver, data);
                true
            },
            None => false,
        }
    }

    /// Withdraws a registration from the publisher of the given kind.
    pub fn unsubscribe(&self, event_id: BleEventId, subscription_id: SubscriptionId) {
        match event_id {
            BleEventId::Common(CommonEventId::MemRequest) => self.user_mem_request.unsubscribe(subscription_id),
            BleEventId::Common(CommonEventId::MemRelease) => self.user_mem_release.unsubscribe(subscription_id),
            BleEventId::Gap(GapEventId::Connected) => self.connected.unsubscribe(subscription_id),
            BleEventId::Gap(GapEventId::Disconnected) => self.disconnected.unsubscribe(subscription_id),
            BleEventId::Gap(GapEventId::Timeout) => self.gap_timeout.unsubscribe(subscription_id),
            BleEventId::Gap(GapEventId::PhyUpdateRequest) => self.phy_update_request.unsubscribe(subscription_id),
            BleEventId::Gap(GapEventId::PhyUpdate) => self.phy_update.unsubscribe(subscription_id),
            BleEventId::Gap(GapEventId::DataLengthUpdateRequest) => self.data_length_update_request.unsubscribe(subscription_id),
            BleEventId::Gap(GapEventId::DataLengthUpdate) => self.data_length_update.unsubscribe(subscription_id),
        }
    }
}

} // verus!
