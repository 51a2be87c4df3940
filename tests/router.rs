use std::marker::PhantomData;
use std::sync::{Arc, Mutex, Weak};

use blatann::ble_event::{BleEvent, BleEventData, BleEventId, CommonEvent, CommonEventId, GapEvent, GapEventId};
use blatann::common::{BleHciStatus, BleMemType};
use blatann::driver_events::{DriverSubscriberRefs, NrfDriverEvents, NrfEventPublisher};
use blatann::events::{
    CommonEventMemRelease, CommonEventMemRequest, GapEventConnected, GapEventDataLengthUpdate,
    GapEventDataLengthUpdateRequest, GapEventDisconnected, GapEventPhyUpdate, GapEventPhyUpdateRequest,
    GapEventTimeout,
};
use blatann::event_publisher::{EventHandler, EventPublisher, WeakEventHandler};
use blatann::event_publisher::Subscribable as HandlerSubscribable;
use blatann::connection_waitable::{connection_ends_attempt, timeout_ends_attempt, ConnectionWaitable, DriverEventSource};
use blatann::gap::{BleGapAddressType, BleGapConnParams, BleGapPhy, BleGapRole, BleGapTimeoutSource};
use blatann::error::NrfError;
use blatann::events::{ConnectionEvent, DataLengthUpdateEvent, DisconnectionEvent, PhyUpdateEvent, PeerState};
use blatann::advertise_data::AdvData;
use blatann::advertiser::{stop_outcome, AdvState, Advertiser, AdvertiserSubscriberRefs};
use blatann::error::NrfErrorType;
use blatann::device::{default_conn_params, BleDevice};
use blatann::events::AdvertisingTimeoutEvent;
use blatann::gap::{BleGapAdvParams, BleGapAdvertisingType, BleGapDataLengthParams};
use blatann::gap_address::BleGapAddress;
use blatann::peer::{GapCommands, Peer, PeerSubscriberRefs, CONN_HANDLE_INVALID};
use blatann::waitable::{AsyncEventHandler, EventArgs, EventWaitable, WaitError, Waitable};
use blatann::publisher::{Downgrade, Subscriber, WeakSubscriber};
use blatann::subscription::{HandlerOutcome, SubscriberAction};

struct WeakRef<S, E>(Weak<dyn Subscriber<S, E>>);

impl<S, E> Clone for WeakRef<S, E> {
    fn clone(&self) -> Self {
        WeakRef(self.0.clone())
    }
}

impl<S, E> WeakSubscriber<S, E> for WeakRef<S, E> {
    fn deliver(&self, sender: Arc<S>, event: E) -> HandlerOutcome {
        match self.0.upgrade() {
            Some(handler) => HandlerOutcome::Handled(handler.handle(sender, event)),
            None => HandlerOutcome::Dropped,
        }
    }
}

impl<S: 'static, E: 'static, T: Subscriber<S, E> + 'static> Downgrade<T> for WeakRef<S, E> {
    fn downgrade(handler: &Arc<T>) -> Self {
        let weak: Weak<T> = Arc::downgrade(handler);
        WeakRef(weak)
    }
}

struct Driver;

struct StdRefs<S>(PhantomData<S>);

impl<S: 'static> DriverSubscriberRefs for StdRefs<S> {
    type Sender = S;
    type MemRequest = WeakRef<S, CommonEventMemRequest>;
    type MemRelease = WeakRef<S, CommonEventMemRelease>;
    type Connected = WeakRef<S, GapEventConnected>;
    type Disconnected = WeakRef<S, GapEventDisconnected>;
    type Timeout = WeakRef<S, GapEventTimeout>;
    type PhyUpdateRequest = WeakRef<S, GapEventPhyUpdateRequest>;
    type PhyUpdate = WeakRef<S, GapEventPhyUpdate>;
    type DataLengthUpdateRequest = WeakRef<S, GapEventDataLengthUpdateRequest>;
    type DataLengthUpdate = WeakRef<S, GapEventDataLengthUpdate>;
}

struct Watcher {
    timeouts: Mutex<Vec<BleGapTimeoutSource>>,
    disconnects: Mutex<Vec<u16>>,
}

impl Subscriber<Driver, GapEventTimeout> for Watcher {
    fn handle(self: Arc<Self>, _sender: Arc<Driver>, event: GapEventTimeout) -> Option<SubscriberAction> {
        self.timeouts.lock().unwrap().push(event.src);
        None
    }
}

impl Subscriber<Driver, GapEventDisconnected> for Watcher {
    fn handle(self: Arc<Self>, _sender: Arc<Driver>, event: GapEventDisconnected) -> Option<SubscriberAction> {
        self.disconnects.lock().unwrap().push(event.conn_handle);
        None
    }
}

fn watcher() -> Arc<Watcher> {
    Arc::new(Watcher { timeouts: Mutex::new(vec![]), disconnects: Mutex::new(vec![]) })
}

fn timeout_event(src: BleGapTimeoutSource) -> BleEventData {
    BleEventData::Gap(GapEvent::Timeout(GapEventTimeout { conn_handle: 0, src }))
}

#[test]
fn router_delivers_to_the_publisher_of_the_kind() {
    let events: NrfDriverEvents<StdRefs<Driver>> = NrfDriverEvents::new();
    let w = watcher();
    events.gap_timeout.subscribe(w.clone());
    events.disconnected.subscribe(w.clone());
    events.dispatch(Arc::new(Driver), timeout_event(BleGapTimeoutSource::Advertising));
    events.dispatch(
        Arc::new(Driver),
        BleEventData::Gap(GapEvent::Disconnected(GapEventDisconnected {
            conn_handle: 4,
            reason: BleHciStatus::RemoteUserTerminatedConnection,
        })),
    );
    events.dispatch(
        Arc::new(Driver),
        BleEventData::Common(CommonEvent::MemRelease(CommonEventMemRelease { mem_type: BleMemType::Invalid })),
    );
    assert_eq!(*w.timeouts.lock().unwrap(), vec![BleGapTimeoutSource::Advertising]);
    assert_eq!(*w.disconnects.lock().unwrap(), vec![4]);
}

#[test]
fn router_unsubscribes_by_kind_and_id() {
    let events: NrfDriverEvents<StdRefs<Driver>> = NrfDriverEvents::new();
    let w = watcher();
    let id = events.gap_timeout.subscribe(w.clone());
    events.disconnected.subscribe(w.clone());
    assert_eq!(events.gap_timeout.subscriber_count(), 1);
    events.unsubscribe(BleEventId::Gap(GapEventId::Timeout), id);
    assert_eq!(events.gap_timeout.subscriber_count(), 0);
    assert_eq!(events.disconnected.subscriber_count(), 1);
    events.dispatch(Arc::new(Driver), timeout_event(BleGapTimeoutSource::Scan));
    assert!(w.timeouts.lock().unwrap().is_empty());
}

#[test]
fn raw_event_without_decoded_data_is_dropped() {
    let events: NrfDriverEvents<StdRefs<Driver>> = NrfDriverEvents::new();
    let w = watcher();
    events.gap_timeout.subscribe(w.clone());
    assert!(!events.process_event(Arc::new(Driver), BleEvent { id: 0x55, data: None }));
    assert!(events.process_event(
        Arc::new(Driver),
        BleEvent { id: 0x1B, data: Some(timeout_event(BleGapTimeoutSource::Conn)) }
    ));
    assert_eq!(*w.timeouts.lock().unwrap(), vec![BleGapTimeoutSource::Conn]);
}

#[test]
fn kind_publishers_know_their_kind() {
    let events: NrfDriverEvents<StdRefs<Driver>> = NrfDriverEvents::new();
    assert_eq!(events.connected.id(), BleEventId::Gap(GapEventId::Connected));
    assert_eq!(events.user_mem_request.id(), BleEventId::Common(CommonEventId::MemRequest));
    assert_eq!(events.data_length_update.name(), "Data Length Update");
    let single: NrfEventPublisher<WeakRef<Driver, GapEventTimeout>> =
        NrfEventPublisher::new("Gap Timeout", BleEventId::Gap(GapEventId::Timeout));
    let w = watcher();
    let id = single.subscribe_once(w.clone());
    single.dispatch(Arc::new(Driver), GapEventTimeout { conn_handle: 1, src: BleGapTimeoutSource::Conn });
    single.dispatch(Arc::new(Driver), GapEventTimeout { conn_handle: 1, src: BleGapTimeoutSource::Scan });
    assert_eq!(*w.timeouts.lock().unwrap(), vec![BleGapTimeoutSource::Conn]);
    single.unsubscribe(id);
    assert_eq!(single.subscriber_count(), 0);
}

#[test]
fn event_codes_round_trip() {
    assert_eq!(BleEventId::from_u16(0x01), Some(BleEventId::Common(CommonEventId::MemRequest)));
    assert_eq!(BleEventId::from_u16(0x02), Some(BleEventId::Common(CommonEventId::MemRelease)));
    assert_eq!(BleEventId::from_u16(0x10), Some(BleEventId::Gap(GapEventId::Connected)));
    assert_eq!(BleEventId::from_u16(0x1B), Some(BleEventId::Gap(GapEventId::Timeout)));
    assert_eq!(BleEventId::from_u16(0x24), Some(BleEventId::Gap(GapEventId::DataLengthUpdate)));
    assert_eq!(BleEventId::from_u16(0x12), None);
    assert_eq!(BleEventId::from_u16(0), None);
    let code: u16 = BleEventId::Gap(GapEventId::PhyUpdate).into();
    assert_eq!(code, 0x22);
    assert_eq!(CommonEventId::try_from(0x10), None);
    assert_eq!(GapEventId::try_from(0x21), Some(GapEventId::PhyUpdateRequest));
    let id: BleEventId = GapEventId::Disconnected.into();
    assert_eq!(id.code(), 0x11);
}

#[test]
fn decoded_event_reports_its_kind() {
    let data = timeout_event(BleGapTimeoutSource::Advertising);
    assert_eq!(data.id(), BleEventId::Gap(GapEventId::Timeout));
    let data = BleEventData::Common(CommonEvent::MemRequest(CommonEventMemRequest {
        conn_handle: 2,
        mem_type: BleMemType::GattsQueuedWrites,
    }));
    assert_eq!(data.id(), BleEventId::Common(CommonEventId::MemRequest));
}

#[test]
fn phy_bits_fall_back_to_auto() {
    assert_eq!(BleGapPhy::from_bits_or_default(0x02).bits(), 0x02);
    assert_eq!(BleGapPhy::from_bits_or_default(0x05).bits(), 0x05);
    assert_eq!(BleGapPhy::from_bits_or_default(0x08).bits(), 0x00);
    assert_eq!(BleGapPhy::from_bits(0x80), None);
    assert_eq!(BleGapPhy::from_bits(0x04), Some(BleGapPhy::coded()));
}

struct WeakHandler<S, E>(Weak<dyn EventHandler<S, E>>);

impl<S, E> Clone for WeakHandler<S, E> {
    fn clone(&self) -> Self {
        WeakHandler(self.0.clone())
    }
}

impl<S, E> WeakEventHandler<S, E> for WeakHandler<S, E> {
    fn deliver(&self, sender: Arc<S>, event: E) -> bool {
        match self.0.upgrade() {
            Some(handler) => {
                handler.handle(sender, event);
                true
            }
            None => false,
        }
    }
}

struct Tally {
    total: Mutex<u32>,
}

impl EventHandler<Driver, u32> for Tally {
    fn handle(self: Arc<Self>, _sender: Arc<Driver>, event: u32) {
        *self.total.lock().unwrap() += event;
    }
}

#[test]
fn plain_publisher_drops_released_handlers() {
    let publisher: EventPublisher<Driver, u32, WeakHandler<Driver, u32>> = EventPublisher::new();
    let kept = Arc::new(Tally { total: Mutex::new(0) });
    let gone = Arc::new(Tally { total: Mutex::new(0) });
    let kept_dyn: Arc<dyn EventHandler<Driver, u32>> = kept.clone();
    let gone_dyn: Arc<dyn EventHandler<Driver, u32>> = gone.clone();
    publisher.subscribe(WeakHandler(Arc::downgrade(&kept_dyn)));
    publisher.subscribe(WeakHandler(Arc::downgrade(&gone_dyn)));
    publisher.dispatch(Arc::new(Driver), 2);
    assert_eq!(*gone.total.lock().unwrap(), 2);
    drop(gone_dyn);
    drop(gone);
    publisher.dispatch(Arc::new(Driver), 3);
    assert_eq!(*kept.total.lock().unwrap(), 5);
    assert_eq!(publisher.subscriber_count(), 1);
}

struct Radio {
    events: NrfDriverEvents<StdRefs<Radio>>,
    commands: Mutex<Vec<String>>,
}

impl GapCommands for Radio {
    fn ble_gap_disconnect(&self, conn_handle: u16) -> Result<(), NrfError> {
        self.commands.lock().unwrap().push(format!("disconnect {}", conn_handle));
        Ok(())
    }

    fn ble_gap_phy_update(&self, conn_handle: u16, tx_phy: BleGapPhy, rx_phy: BleGapPhy) -> Result<(), NrfError> {
        self.commands.lock().unwrap().push(format!("phy {} {} {}", conn_handle, tx_phy.bits(), rx_phy.bits()));
        Ok(())
    }

    fn ble_gap_data_length_update(&self, conn_handle: u16, params: Option<BleGapDataLengthParams>) -> Result<(), NrfError> {
        self.commands.lock().unwrap().push(format!("data length {} {}", conn_handle, params.is_some()));
        Ok(())
    }

    fn ble_gap_adv_data_set(&self, adv_data: &Option<Vec<u8>>, scan_response_data: &Option<Vec<u8>>) -> Result<(), NrfError> {
        self.commands.lock().unwrap().push(format!("adv data {:?} {:?}", adv_data, scan_response_data));
        Ok(())
    }

    fn ble_gap_adv_start(&self, params: &BleGapAdvParams) -> Result<(), NrfError> {
        self.commands.lock().unwrap().push(format!("adv start {} {}", params.interval, params.timeout_s));
        Ok(())
    }

    fn ble_gap_adv_stop(&self) -> Result<(), NrfError> {
        self.commands.lock().unwrap().push("adv stop".to_string());
        Err(NrfError::new(8))
    }

    fn ble_user_mem_reply(&self, conn_handle: u16) -> Result<(), NrfError> {
        self.commands.lock().unwrap().push(format!("mem reply {}", conn_handle));
        Ok(())
    }
}

fn radio() -> Arc<Radio> {
    Arc::new(Radio { events: NrfDriverEvents::new(), commands: Mutex::new(vec![]) })
}

impl DriverEventSource<StdRefs<Radio>> for Radio {
    fn events(&self) -> &NrfDriverEvents<StdRefs<Radio>> {
        &self.events
    }
}

#[derive(Debug)]
struct PeerInfo {
    name: &'static str,
}

type PeerCallback = Box<dyn FnOnce(Option<Arc<PeerInfo>>)>;
type Attempt = ConnectionWaitable<Radio, StdRefs<Radio>, PeerInfo, PeerCallback>;

fn connected_event(role: BleGapRole) -> BleEventData {
    BleEventData::Gap(GapEvent::Connected(GapEventConnected {
        conn_handle: 1,
        address: BleGapAddress { address_type: BleGapAddressType::Public, address: [1, 2, 3, 4, 5, 6] },
        role,
        conn_params: BleGapConnParams { min_conn_interval: 6, max_conn_interval: 12, slave_latency: 0, conn_sup_timeout: 400 },
    }))
}

#[test]
fn connection_attempt_ends_on_matching_connection() {
    let radio = radio();
    let peer = Arc::new(PeerInfo { name: "central" });
    let attempt: Arc<Attempt> = ConnectionWaitable::new(radio.clone(), peer.clone(), BleGapRole::Peripheral);
    let got = Arc::new(Mutex::new(Vec::new()));
    let g = got.clone();
    attempt.then(Box::new(move |p: Option<Arc<PeerInfo>>| g.lock().unwrap().push(p.map(|x| x.name))));
    assert_eq!(radio.events.connected.subscriber_count(), 1);
    assert_eq!(radio.events.gap_timeout.subscriber_count(), 1);
    radio.events.dispatch(radio.clone(), connected_event(BleGapRole::Central));
    assert!(matches!(attempt.wait_timeout(std::time::Duration::from_millis(10)), Err(WaitError::Timeout)));
    radio.events.dispatch(radio.clone(), connected_event(BleGapRole::Peripheral));
    let result = attempt.wait().unwrap();
    assert_eq!(result.map(|p| p.name), Some("central"));
    assert_eq!(*got.lock().unwrap(), vec![Some("central")]);
    assert_eq!(radio.events.connected.subscriber_count(), 0);
    assert_eq!(radio.events.gap_timeout.subscriber_count(), 0);
}

#[test]
fn connection_attempt_ends_on_its_timeout() {
    let radio = radio();
    let peer = Arc::new(PeerInfo { name: "peer" });
    let attempt: Arc<Attempt> = ConnectionWaitable::new(radio.clone(), peer, BleGapRole::Central);
    radio.events.dispatch(radio.clone(), timeout_event(BleGapTimeoutSource::Advertising));
    assert!(matches!(attempt.wait_timeout(std::time::Duration::from_millis(10)), Err(WaitError::Timeout)));
    radio.events.dispatch(radio.clone(), timeout_event(BleGapTimeoutSource::Conn));
    assert!(attempt.wait().unwrap().is_none());
    assert_eq!(radio.events.gap_timeout.subscriber_count(), 0);
}

#[test]
fn attempt_rules_by_role() {
    assert!(timeout_ends_attempt(BleGapRole::Peripheral, BleGapTimeoutSource::Advertising));
    assert!(!timeout_ends_attempt(BleGapRole::Peripheral, BleGapTimeoutSource::Conn));
    assert!(timeout_ends_attempt(BleGapRole::Central, BleGapTimeoutSource::Conn));
    assert!(!timeout_ends_attempt(BleGapRole::Invalid, BleGapTimeoutSource::Scan));
    assert!(connection_ends_attempt(BleGapRole::Central, BleGapRole::Central));
    assert!(!connection_ends_attempt(BleGapRole::Central, BleGapRole::Peripheral));
}

struct PeerRefs;

type RadioPeer = Peer<Radio, StdRefs<Radio>, PeerRefs>;

impl PeerSubscriberRefs<RadioPeer> for PeerRefs {
    type Connect = WeakRef<RadioPeer, ConnectionEvent>;
    type Disconnect = WeakRef<RadioPeer, DisconnectionEvent>;
    type PhyUpdate = WeakRef<RadioPeer, PhyUpdateEvent>;
    type DataLengthUpdate = WeakRef<RadioPeer, DataLengthUpdateEvent>;
}

struct PeerWatcher {
    log: Mutex<Vec<String>>,
}

impl Subscriber<RadioPeer, ConnectionEvent> for PeerWatcher {
    fn handle(self: Arc<Self>, _sender: Arc<RadioPeer>, _event: ConnectionEvent) -> Option<SubscriberAction> {
        self.log.lock().unwrap().push("connected".to_string());
        None
    }
}

impl Subscriber<RadioPeer, DisconnectionEvent> for PeerWatcher {
    fn handle(self: Arc<Self>, _sender: Arc<RadioPeer>, event: DisconnectionEvent) -> Option<SubscriberAction> {
        self.log.lock().unwrap().push(format!("disconnected {:?}", event.reason));
        None
    }
}

impl Subscriber<RadioPeer, PhyUpdateEvent> for PeerWatcher {
    fn handle(self: Arc<Self>, _sender: Arc<RadioPeer>, event: PhyUpdateEvent) -> Option<SubscriberAction> {
        self.log.lock().unwrap().push(format!("phy {}", event.tx_phy.bits()));
        None
    }
}

impl Subscriber<RadioPeer, DataLengthUpdateEvent> for PeerWatcher {
    fn handle(self: Arc<Self>, _sender: Arc<RadioPeer>, event: DataLengthUpdateEvent) -> Option<SubscriberAction> {
        self.log.lock().unwrap().push(format!("data length {}", event.tx_bytes));
        None
    }
}

fn params() -> BleGapConnParams {
    BleGapConnParams { min_conn_interval: 6, max_conn_interval: 12, slave_latency: 0, conn_sup_timeout: 400 }
}

#[test]
fn peer_follows_its_connection_and_republishes() {
    let radio = radio();
    let peer: Arc<RadioPeer> = Peer::new(&radio, BleGapRole::Central, &params());
    assert_eq!(peer.connection_state(), PeerState::Connecting);
    assert_eq!(peer.conn_handle(), CONN_HANDLE_INVALID);
    let watcher = Arc::new(PeerWatcher { log: Mutex::new(vec![]) });
    peer.on_connect.subscribe(watcher.clone());
    peer.on_disconnect.subscribe(watcher.clone());
    peer.on_phy_updated.subscribe(watcher.clone());
    peer.on_data_length_updated.subscribe(watcher.clone());

    let address = BleGapAddress { address_type: BleGapAddressType::Public, address: [1, 2, 3, 4, 5, 6] };
    peer.peer_connected(7, &address, &params());
    assert_eq!(peer.connection_state(), PeerState::Connected);
    assert_eq!(peer.conn_handle(), 7);
    assert_eq!(radio.events.phy_update.subscriber_count(), 1);

    // Events of another connection are ignored.
    radio.events.dispatch(
        radio.clone(),
        BleEventData::Gap(GapEvent::PhyUpdate(GapEventPhyUpdate {
            conn_handle: 8,
            status: BleHciStatus::Success,
            tx_phy: BleGapPhy::two_mbps(),
            rx_phy: BleGapPhy::two_mbps(),
        })),
    );
    radio.events.dispatch(
        radio.clone(),
        BleEventData::Gap(GapEvent::PhyUpdate(GapEventPhyUpdate {
            conn_handle: 7,
            status: BleHciStatus::Success,
            tx_phy: BleGapPhy::two_mbps(),
            rx_phy: BleGapPhy::one_mbps(),
        })),
    );
    radio.events.dispatch(
        radio.clone(),
        BleEventData::Gap(GapEvent::PhyUpdateRequest(GapEventPhyUpdateRequest {
            conn_handle: 7,
            peer_preferred_phys: blatann::gap::BleGapPhys::new(BleGapPhy::coded(), BleGapPhy::coded()),
        })),
    );
    let lengths = BleGapDataLengthParams { max_tx_octets: 251, max_rx_octets: 251, max_tx_time_us: 2120, max_rx_time_us: 2120 };
    radio.events.dispatch(
        radio.clone(),
        BleEventData::Gap(GapEvent::DataLengthUpdateRequest(GapEventDataLengthUpdateRequest { conn_handle: 7, peer_params: lengths })),
    );
    radio.events.dispatch(
        radio.clone(),
        BleEventData::Gap(GapEvent::DataLengthUpdate(GapEventDataLengthUpdate { conn_handle: 7, effective_params: lengths })),
    );
    radio.events.dispatch(
        radio.clone(),
        BleEventData::Gap(GapEvent::Disconnected(GapEventDisconnected { conn_handle: 7, reason: BleHciStatus::ConnectionTimeout })),
    );
    assert_eq!(peer.connection_state(), PeerState::Disconnected);
    assert_eq!(peer.conn_handle(), CONN_HANDLE_INVALID);
    assert_eq!(radio.events.phy_update.subscriber_count(), 0);
    assert_eq!(radio.events.data_length_update.subscriber_count(), 0);
    assert_eq!(
        *watcher.log.lock().unwrap(),
        vec![
            "connected".to_string(),
            "phy 2".to_string(),
            "data length 251".to_string(),
            "disconnected ConnectionTimeout".to_string(),
        ]
    );
    assert_eq!(*radio.commands.lock().unwrap(), vec!["phy 7 0 0".to_string(), "data length 7 false".to_string()]);
}

#[test]
fn peer_disconnect_returns_a_waitable() {
    let radio = radio();
    let peer: Arc<RadioPeer> = Peer::new(&radio, BleGapRole::Peripheral, &params());
    assert_eq!(peer.connection_state(), PeerState::Disconnected);
    let address = BleGapAddress { address_type: BleGapAddressType::Public, address: [6, 5, 4, 3, 2, 1] };
    peer.peer_connected(3, &address, &params());
    let waitable: Arc<EventWaitable<RadioPeer, DisconnectionEvent, Box<dyn FnOnce(EventArgs<RadioPeer, DisconnectionEvent>)>>> =
        peer.disconnect().unwrap();
    assert_eq!(*radio.commands.lock().unwrap(), vec!["disconnect 3".to_string()]);
    radio.events.dispatch(
        radio.clone(),
        BleEventData::Gap(GapEvent::Disconnected(GapEventDisconnected { conn_handle: 3, reason: BleHciStatus::LocalHostTerminatedConnection })),
    );
    let (_sender, event) = waitable.wait_timeout(std::time::Duration::from_millis(100)).unwrap();
    assert_eq!(event.reason, BleHciStatus::LocalHostTerminatedConnection);
}

struct AdvRefs;

type RadioAdvertiser = Advertiser<Radio, StdRefs<Radio>, PeerRefs, AdvRefs>;

impl AdvertiserSubscriberRefs<RadioAdvertiser> for AdvRefs {
    type Timeout = WeakRef<RadioAdvertiser, AdvertisingTimeoutEvent>;
}

type AdvTimeoutWaitable =
    EventWaitable<RadioAdvertiser, AdvertisingTimeoutEvent, Box<dyn FnOnce(EventArgs<RadioAdvertiser, AdvertisingTimeoutEvent>)>>;

#[test]
fn advertiser_starts_and_reports_its_timeout() {
    let radio = radio();
    let central: Arc<RadioPeer> = Peer::new(&radio, BleGapRole::Peripheral, &params());
    let advertiser: Arc<RadioAdvertiser> = Advertiser::new(&radio, &central);
    assert_eq!(advertiser.state(), AdvState::default());
    advertiser.set_params(80, 6, BleGapAdvertisingType::NonconnectableUndirected, false);
    let waitable: Arc<AdvTimeoutWaitable> = advertiser.start().unwrap();
    assert!(advertiser.state().is_advertising);
    radio.events.dispatch(radio.clone(), timeout_event(BleGapTimeoutSource::Scan));
    assert!(advertiser.state().is_advertising);
    radio.events.dispatch(radio.clone(), timeout_event(BleGapTimeoutSource::Advertising));
    assert!(waitable.wait_timeout(std::time::Duration::from_millis(100)).is_ok());
    assert!(!advertiser.state().is_advertising);
    assert_eq!(*radio.commands.lock().unwrap(), vec!["adv stop".to_string(), "adv start 80 6".to_string()]);
}

#[test]
fn advertiser_restarts_when_asked() {
    let radio = radio();
    let central: Arc<RadioPeer> = Peer::new(&radio, BleGapRole::Peripheral, &params());
    let advertiser: Arc<RadioAdvertiser> = Advertiser::new(&radio, &central);
    advertiser.set_params(160, 0, BleGapAdvertisingType::ConnectableUndirected, true);
    radio.events.dispatch(radio.clone(), timeout_event(BleGapTimeoutSource::Advertising));
    let address = BleGapAddress { address_type: BleGapAddressType::Public, address: [0; 6] };
    central.peer_connected(5, &address, &params());
    assert!(!advertiser.state().is_advertising);
    radio.events.dispatch(
        radio.clone(),
        BleEventData::Gap(GapEvent::Disconnected(GapEventDisconnected { conn_handle: 5, reason: BleHciStatus::ConnectionTimeout })),
    );
    assert!(advertiser.state().is_advertising);
    assert_eq!(*radio.commands.lock().unwrap(), vec!["adv start 160 0".to_string(), "adv start 160 0".to_string()]);
    assert_eq!(advertiser.stop(), Ok(()));
    assert!(!advertiser.state().auto_restart);
}

#[test]
fn advertiser_rejects_oversized_payloads() {
    let radio = radio();
    let central: Arc<RadioPeer> = Peer::new(&radio, BleGapRole::Peripheral, &params());
    let advertiser: Arc<RadioAdvertiser> = Advertiser::new(&radio, &central);
    let mut big = AdvData::default();
    big.add_entry(0xFF, &[0; 30]);
    let mut small = AdvData::default();
    small.set_name("x", true);
    let err = advertiser.set_data(Some(&small), Some(&big)).unwrap_err();
    assert_eq!(err, NrfError { error_type: NrfErrorType::DataSize, error_code: 12 });
    assert!(radio.commands.lock().unwrap().is_empty());
    assert_eq!(advertiser.set_data(Some(&small), None), Ok(()));
    assert_eq!(*radio.commands.lock().unwrap(), vec!["adv data Some([2, 9, 120]) None".to_string()]);
}

#[test]
fn stopping_an_idle_radio_is_not_an_error() {
    assert_eq!(stop_outcome(Ok(())), Ok(()));
    assert_eq!(stop_outcome(Err(NrfError::new(8))), Ok(()));
    assert_eq!(stop_outcome(Err(NrfError::new(0))), Ok(()));
    assert_eq!(stop_outcome(Err(NrfError::new(17))), Err(NrfError::new(17)));
    assert_eq!(BleGapAdvParams::default().interval, 64);
}

#[test]
fn device_hands_peripheral_connections_to_its_peer() {
    let radio = radio();
    let device: Arc<BleDevice<Radio, StdRefs<Radio>, PeerRefs, AdvRefs>> = BleDevice::new(&radio);
    assert_eq!(device.default_conn_params(), default_conn_params());
    assert_eq!(device.central.role(), BleGapRole::Peripheral);
    radio.events.dispatch(radio.clone(), connected_event(BleGapRole::Central));
    assert_eq!(device.central.connection_state(), PeerState::Disconnected);
    radio.events.dispatch(radio.clone(), connected_event(BleGapRole::Peripheral));
    assert_eq!(device.central.connection_state(), PeerState::Connected);
    assert_eq!(device.central.conn_handle(), 1);
    radio.events.dispatch(
        radio.clone(),
        BleEventData::Common(CommonEvent::MemRequest(CommonEventMemRequest { conn_handle: 1, mem_type: BleMemType::GattsQueuedWrites })),
    );
    assert_eq!(*radio.commands.lock().unwrap(), vec!["mem reply 1".to_string()]);
    assert!(!device.advertiser.state().is_advertising);
}

struct Joiner {
    publisher: Arc<EventPublisher<Driver, u32, WeakHandler<Driver, u32>>>,
    late: Arc<Tally>,
    joined: Mutex<bool>,
}

impl EventHandler<Driver, u32> for Joiner {
    fn handle(self: Arc<Self>, _sender: Arc<Driver>, _event: u32) {
        let mut joined = self.joined.lock().unwrap();
        if !*joined {
            *joined = true;
            let late: Arc<dyn EventHandler<Driver, u32>> = self.late.clone();
            self.publisher.subscribe(WeakHandler(Arc::downgrade(&late)));
        }
    }
}

#[test]
fn plain_publisher_lets_handlers_subscribe_during_dispatch() {
    let publisher = Arc::new(EventPublisher::new());
    let late = Arc::new(Tally { total: Mutex::new(0) });
    let joiner = Arc::new(Joiner { publisher: publisher.clone(), late: late.clone(), joined: Mutex::new(false) });
    let joiner_dyn: Arc<dyn EventHandler<Driver, u32>> = joiner.clone();
    publisher.subscribe(WeakHandler(Arc::downgrade(&joiner_dyn)));
    publisher.dispatch(Arc::new(Driver), 4);
    assert_eq!(*late.total.lock().unwrap(), 0);
    assert_eq!(publisher.subscriber_count(), 2);
    publisher.dispatch(Arc::new(Driver), 6);
    assert_eq!(*late.total.lock().unwrap(), 6);
}
