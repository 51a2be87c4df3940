//! A connection to a peer: a subscriber of the driver's GAP events that keeps the
//! link state and republishes what changed on its own publishers.

use std::sync::Arc;
use vstd::prelude::*;
use vstd::rwlock::RwLock;

use crate::ble_event::{BleEventDataType, BleEventId};
use crate::connection_waitable::DriverEventSource;
use crate::driver_events::{DriverSubscriberRefs, NrfEventPublisher};
use crate::error::NrfError;
use crate::events::{
    ConnectionEvent, DataLengthUpdateEvent, DisconnectionEvent, GapEventDataLengthUpdate,
    GapEventDataLengthUpdateRequest, GapEventDisconnected, GapEventPhyUpdate, GapEventPhyUpdateRequest,
    PeerState, PhyUpdateEvent,
};
use crate::gap::{BleGapAdvParams, BleGapConnParams, BleGapDataLengthParams, BleGapPhy, BleGapRole, ConnHandle};
use crate::gap_address::BleGapAddress;
use crate::publisher::{Downgrade, Publisher, Subscribable, Subscriber, WeakSubscriber};
use crate::subscription::{SubscriberAction, SubscriptionId};
use crate::waitable::{EventArgs, EventWaitable};

verus! {

/// The handle of no connection.
pub const CONN_HANDLE_INVALID: ConnHandle = 0xFFFF;

/// The ATT MTU a link starts with.
pub const MTU_SIZE_DEFAULT: u32 = 23;

/// The commands a peer sends to the radio.
pub trait GapCommands {
    fn ble_gap_disconnect(&self, conn_handle: ConnHandle) -> Result<(), NrfError>;

    fn ble_gap_phy_update(&self, conn_handle: ConnHandle, tx_phy: BleGapPhy, rx_phy: BleGapPhy) -> Result<(), NrfError>;

    fn ble_gap_data_length_update(&self, conn_handle: ConnHandle, params: Option<BleGapDataLengthParams>) -> Result<(), NrfError>;

    fn ble_gap_adv_data_set(&self, adv_data: &Option<Vec<u8>>, scan_response_data: &Option<Vec<u8>>) -> Result<(), NrfError>;

    fn ble_gap_adv_start(&self, params: &BleGapAdvParams) -> Result<(), NrfError>;

    fn ble_gap_adv_stop(&self) -> Result<(), NrfError>;

    fn ble_user_mem_reply(&self, conn_handle: ConnHandle) -> Result<(), NrfError>;
}

/// The handler references a peer's own publishers keep, one type per event.
pub trait PeerSubscriberRefs<P> {
    type Connect: WeakSubscriber<P, ConnectionEvent> + Clone;
    type Disconnect: WeakSubscriber<P, DisconnectionEvent> + Clone;
    type PhyUpdate: WeakSubscriber<P, PhyUpdateEvent> + Clone;
    type DataLengthUpdate: WeakSubscriber<P, DataLengthUpdateEvent> + Clone;
}

/// The state of the link to a peer.
pub struct State {
    pub conn_handle: ConnHandle,
    pub peer_address: Option<BleGapAddress>,
    pub connection_state: PeerState,
    pub conn_params: BleGapConnParams,
    pub mtu_size: u32,
    pub preferred_mtu_size: u32,
    pub negotiated_mtu_size: Option<usize>,
    pub preferred_phy: BleGapPhy,
    pub current_phy: BleGapPhy,
    pub disconnection_reason: u32,
    /// Registrations that last as long as one connection.
    pub connection_based_subs: Vec<(BleEventId, SubscriptionId)>,
}

impl State {
    pub fn new(connection_state: PeerState, conn_params: &BleGapConnParams) -> (r: State)
        ensures
            r.conn_handle == CONN_HANDLE_INVALID,
            r.peer_address is None,
            r.connection_state == connection_state,
            r.conn_params == *conn_params,
            r.mtu_size == MTU_SIZE_DEFAULT,
            r.preferred_mtu_size == MTU_SIZE_DEFAULT,
            r.negotiated_mtu_size is None,
            r.preferred_phy.bits == 0,
            r.current_phy.bits == 1,
            r.disconnection_reason == 0,
            r.connection_based_subs@.len() == 0,
    {
        State {
            conn_handle: CONN_HANDLE_INVALID,
            peer_address: None,
            connection_state,
            conn_params: *conn_params,
            mtu_size: MTU_SIZE_DEFAULT,
            preferred_mtu_size: MTU_SIZE_DEFAULT,
            negotiated_mtu_size: None,
            preferred_phy: BleGapPhy::auto(),
            current_phy: BleGapPhy::one_mbps(),
            disconnection_reason: 0,
            connection_based_subs: Vec::new(),
        }
    }

    /// Records a new connection; returns the registrations of the previous one, which
    /// the caller withdraws.
    pub fn connect(
        &mut self,
        conn_handle: ConnHandle,
        address: &BleGapAddress,
        conn_params: &BleGapConnParams,
    ) -> (r: Vec<(BleEventId, SubscriptionId)>)
        ensures
            final(self).connection_state == PeerState::Connected,
            final(self).conn_handle == conn_handle,
            final(self).peer_address == Some(*address),
            final(self).conn_params == *conn_params,
            final(self).negotiated_mtu_size is None,
            final(self).mtu_size == MTU_SIZE_DEFAULT,
            final(self).connection_based_subs@.len() == 0,
            r@ == old(self).connection_based_subs@,
            final(self).preferred_phy == old(self).preferred_phy,
            final(self).current_phy == old(self).current_phy,
    {
        self.connection_state = PeerState::Connected;
        self.conn_handle = conn_handle;
        self.peer_address = Some(*address);
        self.conn_params = *conn_params;
        self.negotiated_mtu_size = None;
        self.mtu_size = MTU_SIZE_DEFAULT;
        let mut previous: Vec<(BleEventId, SubscriptionId)> = Vec::new();
        std::mem::swap(&mut previous, &mut self.connection_based_subs);
        previous
    }

    /// Records the end of the connection with this handle, if it is the current one;
    /// returns the registrations of that connection, which the caller withdraws.
    pub fn disconnect(&mut self, conn_handle: ConnHandle) -> (r: Option<Vec<(BleEventId, SubscriptionId)>>)
        ensures
            old(self).conn_handle == conn_handle <==> r is Some,
            old(self).conn_handle == conn_handle ==> {
                &&& final(self).connection_state == PeerState::Disconnected
                &&& final(self).conn_handle == CONN_HANDLE_INVALID
                &&& r->Some_0@ == old(self).connection_based_subs@
            },
            old(self).conn_handle != conn_handle ==> *final(self) == *old(self),
    {
        if self.conn_handle == conn_handle {
            self.connection_state = PeerState::Disconnected;
            self.conn_handle = CONN_HANDLE_INVALID;
            let mut subs: Vec<(BleEventId, SubscriptionId)> = Vec::new();
            let mut i: usize = 0;
            while i < self.connection_based_subs.len()
                invariant
                    i <= self.connection_based_subs@.len(),
                    subs@ == self.connection_based_subs@.subrange(0, i as int),
                decreases self.connection_based_subs@.len() - i,
            {
                subs.push(self.connection_based_subs[i]);
                assert(self.connection_based_subs@.subrange(0, i + 1) =~= self.connection_based_subs@.subrange(0, i as int).push(self.connection_based_subs@[i as int]));
                i += 1;
            }
            assert(self.connection_based_subs@.subrange(0, i as int) =~= self.connection_based_subs@);
            Some(subs)
        } else {
            None
        }
    }
}

/// The state a peer starts in for its role: a central's peer is being connected to,
/// a peripheral's waits.
pub open spec fn initial_state_of(role: BleGapRole) -> PeerState {
    if role == BleGapRole::Central {
        PeerState::Connecting
    } else {
        PeerState::Disconnected
    }
}

#[verifier::reject_recursive_types(S)]
#[verifier::reject_recursive_types(R)]
#[verifier::reject_recursive_types(Q)]
pub struct Peer<S, R, Q: PeerSubscriberRefs<Peer<S, R, Q>>> {
    role: BleGapRole,
    max_mtu_size: usize,
    state: RwLock<State, spec_fn(State) -> bool>,
    driver: Arc<S>,
    pub on_connect: Publisher<Q::Connect>,
    pub on_disconnect: Publisher<Q::Disconnect>,
    pub on_phy_updated: Publisher<Q::PhyUpdate>,
    pub on_data_length_updated: Publisher<Q::DataLengthUpdate>,
    source: std::marker::PhantomData<R>,
}

impl<S, R, Q: PeerSubscriberRefs<Peer<S, R, Q>>> Peer<S, R, Q> {
    #[verifier::type_invariant]
    closed spec fn wf(&self) -> bool {
        forall|s: State| #[trigger] self.state.inv(s)
    }

    pub closed spec fn spec_role(&self) -> BleGapRole {
        self.role
    }
}

impl<S: DriverEventSource<R> + GapCommands, R: DriverSubscriberRefs<Sender = S>, Q: PeerSubscriberRefs<Peer<S, R, Q>>> Peer<S, R, Q> {
    /// A peer of the given role, subscribed to the driver's disconnections.
    pub fn new(driver: &Arc<S>, role: BleGapRole, conn_params: &BleGapConnParams) -> (r: Arc<Self>)
        where R::Disconnected: Downgrade<Self>
        requires
            role != BleGapRole::Invalid,
        ensures
            r.spec_role() == role,
    {
        let init_conn_state = match role {
            BleGapRole::Central => PeerState::Connecting,
            _ => PeerState::Disconnected,
        };
        let peer = Arc::new(
            Peer {
                role,
                max_mtu_size: 23,
                state: RwLock::new(State::new(init_conn_state, conn_params), Ghost(|s: State| true)),
                driver: driver.clone(),
                on_connect: Publisher::new("On Connect"),
                on_disconnect: Publisher::new("On Disconnect"),
                on_phy_updated: Publisher::new("On Phy Update"),
                on_data_length_updated: Publisher::new("On Data Length Update"),
                source: std::marker::PhantomData,
            },
        );
        driver.events().disconnected.subscribe(peer.clone());
        peer
    }

    /// The publisher of this peer's connections.
    pub fn connections(&self) -> &Publisher<Q::Connect> {
        &self.on_connect
    }

    /// The publisher of this peer's disconnections.
    pub fn disconnections(&self) -> &Publisher<Q::Disconnect> {
        &self.on_disconnect
    }

    pub fn role(&self) -> (r: BleGapRole)
        ensures
            r == self.spec_role(),
    {
        self.role
    }

    pub fn conn_handle(&self) -> ConnHandle {
        proof {
            use_type_invariant(self);
        }
        let (state, guard) = self.state.acquire_write();
        let handle = state.conn_handle;
        guard.release_write(state);
        handle
    }

    pub fn connection_state(&self) -> PeerState {
        proof {
            use_type_invariant(self);
        }
        let (state, guard) = self.state.acquire_write();
        let s = state.connection_state;
        guard.release_write(state);
        s
    }

    /// Asks the radio to end the link; on success, a waitable for the disconnection.
    pub fn disconnect<F: FnOnce(EventArgs<Self, DisconnectionEvent>)>(self: &Arc<Self>) -> Result<Arc<EventWaitable<Self, DisconnectionEvent, F>>, NrfError>
        where Q::Disconnect: Downgrade<EventWaitable<Self, DisconnectionEvent, F>>
    {
        let conn_handle = self.conn_handle();
        match self.driver.ble_gap_disconnect(conn_handle) {
            Ok(()) => Ok(EventWaitable::new(&self.on_disconnect)),
            Err(e) => Err(e),
        }
    }

    fn unsubscribe_all(&self, subs: &Vec<(BleEventId, SubscriptionId)>) {
        let mut i: usize = 0;
        while i < subs.len()
            invariant
                i <= subs@.len(),
            decreases subs@.len() - i,
        {
            let (event_id, sub_id) = subs[i];
            self.driver.events().unsubscribe(event_id, sub_id);
            i += 1;
        }
    }

    /// Registers `subscriber` on `event` for the current connection only.
    pub fn subscribe_for_connection<T, E: BleEventDataType, W: WeakSubscriber<S, E> + Clone + Downgrade<T>>(
        &self,
        subscriber: Arc<T>,
        event: &NrfEventPublisher<W>,
    ) {
        proof {
            use_type_invariant(self);
        }
        let event_id = event.id();
        let subscription_id = event.subscribe(subscriber);
        let (mut state, guard) = self.state.acquire_write();
        state.connection_based_subs.push((event_id, subscription_id));
        guard.release_write(state);
    }

    /// Takes up a new connection: withdraws the registrations of the previous one,
    /// registers for this link's PHY and data-length events, and announces it.
    pub fn peer_connected(self: &Arc<Self>, conn_handle: ConnHandle, address: &BleGapAddress, conn_params: &BleGapConnParams)
        where
            R::PhyUpdateRequest: Downgrade<Self>,
            R::PhyUpdate: Downgrade<Self>,
            R::DataLengthUpdateRequest: Downgrade<Self>,
            R::DataLengthUpdate: Downgrade<Self>,
    {
        proof {
            use_type_invariant(&**self);
        }
        let (mut state, guard) = self.state.acquire_write();
        let previous = state.connect(conn_handle, address, conn_params);
        guard.release_write(state);
        self.unsubscribe_all(&previous);

        let events = self.driver.events();
        self.subscribe_for_connection(self.clone(), &events.phy_update_request);
        self.subscribe_for_connection(self.clone(), &events.phy_update);
        self.subscribe_for_connection(self.clone(), &events.data_length_update_request);
        self.subscribe_for_connection(self.clone(), &events.data_length_update);

        self.on_connect.dispatch(self.clone(), ConnectionEvent {});
    }
}

impl<S: DriverEventSource<R> + GapCommands, R: DriverSubscriberRefs<Sender = S>, Q: PeerSubscriberRefs<Peer<S, R, Q>>> Subscriber<S, GapEventDisconnected> for Peer<S, R, Q> {
    fn handle(self: Arc<Self>, _sender: Arc<S>, event: GapEventDisconnected) -> Option<SubscriberAction> {
        proof {
            use_type_invariant(&*self);
        }
        let (mut state, guard) = self.state.acquire_write();
        let ended = state.disconnect(event.conn_handle);
        guard.release_write(state);
        if let Some(subs) = ended {
            self.unsubscribe_all(&subs);
            self.on_disconnect.dispatch(self.clone(), DisconnectionEvent { reason: event.reason });
        }
        None
    }
}

impl<S: DriverEventSource<R> + GapCommands, R: DriverSubscriberRefs<Sender = S>, Q: PeerSubscriberRefs<Peer<S, R, Q>>> Subscriber<S, GapEventPhyUpdateRequest> for Peer<S, R, Q> {
    fn handle(self: Arc<Self>, sender: Arc<S>, event: GapEventPhyUpdateRequest) -> Option<SubscriberAction> {
        proof {
            use_type_invariant(&*self);
        }
        let (state, guard) = self.state.acquire_write();
        let current = state.conn_handle;
        let preferred_phy = state.preferred_phy;
        guard.release_write(state);
        if current == event.conn_handle {
            let _answered = sender.ble_gap_phy_update(current, preferred_phy, preferred_phy);
        }
        None
    }
}

impl<S: DriverEventSource<R> + GapCommands, R: DriverSubscriberRefs<Sender = S>, Q: PeerSubscriberRefs<Peer<S, R, Q>>> Subscriber<S, GapEventPhyUpdate> for Peer<S, R, Q> {
    fn handle(self: Arc<Self>, _sender: Arc<S>, event: GapEventPhyUpdate) -> Option<SubscriberAction> {
        proof {
            use_type_invariant(&*self);
        }
        let (mut state, guard) = self.state.acquire_write();
        let matches = state.conn_handle == event.conn_handle;
        if matches {
            state.current_phy = event.tx_phy;
        }
        guard.release_write(state);
        if matches {
            self.on_phy_updated.dispatch(self.clone(), PhyUpdateEvent { tx_phy: event.tx_phy, rx_phy: event.rx_phy });
        }
        None
    }
}

impl<S: DriverEventSource<R> + GapCommands, R: DriverSubscriberRefs<Sender = S>, Q: PeerSubscriberRefs<Peer<S, R, Q>>> Subscriber<S, GapEventDataLengthUpdateRequest> for Peer<S, R, Q> {
    fn handle(self: Arc<Self>, sender: Arc<S>, event: GapEventDataLengthUpdateRequest) -> Option<SubscriberAction> {
        if self.conn_handle() == event.conn_handle {
            let _answered = sender.ble_gap_data_length_update(event.conn_handle, None);
        }
        None
    }
}

impl<S: DriverEventSource<R> + GapCommands, R: DriverSubscriberRefs<Sender = S>, Q: PeerSubscriberRefs<Peer<S, R, Q>>> Subscriber<S, GapEventDataLengthUpdate> for Peer<S, R, Q> {
    fn handle(self: Arc<Self>, _sender: Arc<S>, event: GapEventDataLengthUpdate) -> Option<SubscriberAction> {
        if self.conn_handle() == event.conn_handle {
            let params = DataLengthUpdateEvent {
                tx_bytes: event.effective_params.max_tx_octets,
                rx_bytes: event.effective_params.max_rx_octets,
                tx_time_us: event.effective_params.max_tx_time_us,
                rx_time_us: event.effective_params.max_rx_time_us,
            };
            self.on_data_length_updated.dispatch(self.clone(), params);
        }
        None
    }
}

} // verus!
