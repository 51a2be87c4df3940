//! Advertising: the parameters and payloads a peripheral advertises with, and the
//! restart policy that reacts to timeouts and disconnections.

use std::sync::Arc;
use vstd::prelude::*;
use vstd::rwlock::RwLock;

use crate::advertise_data::{encoded, AdvData, MAX_ADVERTISE_ENCODED_LEN};
use crate::connection_waitable::DriverEventSource;
use crate::driver_events::DriverSubscriberRefs;
use crate::error::{error_code_of, NrfError, NrfErrorType};
use crate::events::{AdvertisingTimeoutEvent, ConnectionEvent, DisconnectionEvent, GapEventTimeout};
use crate::gap::{BleGapAdvParams, BleGapAdvertisingType, BleGapTimeoutSource};
use crate::peer::{GapCommands, Peer, PeerSubscriberRefs};
use crate::publisher::{Downgrade, Publisher, Subscriber, WeakSubscriber};
use crate::subscription::SubscriberAction;
use crate::waitable::{EventArgs, EventWaitable};

verus! {

/// An advertising timeout of 0 seconds: advertise until stopped.
pub const ADVERTISE_FOREVER: u16 = 0;

/// The advertising settings and whether advertising runs.
#[derive(Clone, Copy, Debug, PartialEq, Eq, Structural)]
pub struct AdvState {
    pub is_advertising: bool,
    pub auto_restart: bool,
    pub adv_type: BleGapAdvertisingType,
    /// In units of 0.625 ms.
    pub interval: u16,
    pub timeout_s: u16,
}

impl Default for AdvState {
    /// Connectable advertising every 100 ms until stopped, without restarts.
    fn default() -> (r: AdvState)
        ensures
            r == (AdvState {
                is_advertising: false,
                auto_restart: false,
                adv_type: BleGapAdvertisingType::ConnectableUndirected,
                interval: 160,
                timeout_s: ADVERTISE_FOREVER,
            }),
    {
        AdvState {
            is_advertising: false,
            auto_restart: false,
            adv_type: BleGapAdvertisingType::ConnectableUndirected,
            interval: 160,
            timeout_s: ADVERTISE_FOREVER,
        }
    }
}

/// The error the driver reports for a payload that is too large.
pub open spec fn data_size_error() -> NrfError {
    NrfError { error_type: NrfErrorType::DataSize, error_code: error_code_of(NrfErrorType::DataSize) }
}

/// Whether an optional encoded payload fits.
pub open spec fn payload_fits(payload: Option<Seq<u8>>) -> bool {
    match payload {
        Some(p) => p.len() <= MAX_ADVERTISE_ENCODED_LEN,
        None => true,
    }
}

/// `Ok` when both optional payloads fit, else the data-size error.
pub fn check_payloads(adv_data: &Option<Vec<u8>>, scan_data: &Option<Vec<u8>>) -> (r: Result<(), NrfError>)
    ensures
        r is Ok <==> (payload_fits(opt_view(adv_data)) && payload_fits(opt_view(scan_data))),
        r matches Err(e) ==> e == data_size_error(),
{
    if let Some(a) = adv_data {
        if a.len() > MAX_ADVERTISE_ENCODED_LEN {
            return Err(NrfError { error_type: NrfErrorType::DataSize, error_code: NrfErrorType::DataSize.code() });
        }
    }
    if let Some(s) = scan_data {
        if s.len() > MAX_ADVERTISE_ENCODED_LEN {
            return Err(NrfError { error_type: NrfErrorType::DataSize, error_code: NrfErrorType::DataSize.code() });
        }
    }
    Ok(())
}

pub open spec fn opt_view(v: &Option<Vec<u8>>) -> Option<Seq<u8>> {
    match v {
        Some(x) => Some(x@),
        None => None,
    }
}

/// Stopping counts as done when the radio was not advertising: a success code or
/// an invalid-state error is `Ok`; any other error is kept.
pub fn stop_outcome(result: Result<(), NrfError>) -> (r: Result<(), NrfError>)
    ensures
        r is Ok <==> (result is Ok || (result matches Err(e) && (e.error_type == NrfErrorType::Success
            || e.error_type == NrfErrorType::InvalidState))),
        r matches Err(e) ==> result == Err::<(), NrfError>(e),
{
    match result {
        Ok(()) => Ok(()),
        Err(e) => match e.error_type {
            NrfErrorType::Success => Ok(()),
            NrfErrorType::InvalidState => Ok(()),
            _ => Err(e),
        },
    }
}

/// The parameters advertising starts with under these settings.
pub fn adv_params(state: &AdvState) -> (r: BleGapAdvParams)
    ensures
        r == (BleGapAdvParams { interval: state.interval, timeout_s: state.timeout_s, advertising_type: state.adv_type }),
{
    BleGapAdvParams::new(state.interval, state.timeout_s, state.adv_type)
}

/// The handler references an advertiser's publisher keeps.
pub trait AdvertiserSubscriberRefs<A> {
    type Timeout: WeakSubscriber<A, AdvertisingTimeoutEvent> + Clone;
}

#[verifier::reject_recursive_types(S)]
#[verifier::reject_recursive_types(R)]
#[verifier::reject_recursive_types(Q)]
#[verifier::reject_recursive_types(T)]
pub struct Advertiser<S, R, Q: PeerSubscriberRefs<Peer<S, R, Q>>, T: AdvertiserSubscriberRefs<Advertiser<S, R, Q, T>>> {
    driver: Arc<S>,
    central: Arc<Peer<S, R, Q>>,
    pub on_timeout: Publisher<T::Timeout>,
    state: RwLock<AdvState, spec_fn(AdvState) -> bool>,
}

impl<S, R, Q: PeerSubscriberRefs<Peer<S, R, Q>>, T: AdvertiserSubscriberRefs<Advertiser<S, R, Q, T>>> Advertiser<S, R, Q, T> {
    #[verifier::type_invariant]
    closed spec fn wf(&self) -> bool {
        forall|s: AdvState| #[trigger] self.state.inv(s)
    }
}

impl<
    S: DriverEventSource<R> + GapCommands,
    R: DriverSubscriberRefs<Sender = S>,
    Q: PeerSubscriberRefs<Peer<S, R, Q>>,
    T: AdvertiserSubscriberRefs<Advertiser<S, R, Q, T>>,
> Advertiser<S, R, Q, T> {
    /// An advertiser for `driver`, following the driver's timeouts and the
    /// connections of `central`.
    pub fn new(driver: &Arc<S>, central: &Arc<Peer<S, R, Q>>) -> Arc<Self>
        where R::Timeout: Downgrade<Self>, Q::Connect: Downgrade<Self>, Q::Disconnect: Downgrade<Self>
    {
        let advertiser = Arc::new(
            Advertiser {
                driver: driver.clone(),
                central: central.clone(),
                on_timeout: Publisher::new("Advertising Timeout"),
                state: RwLock::new(AdvState::default(), Ghost(|s: AdvState| true)),
            },
        );
        driver.events().gap_timeout.subscribe(advertiser.clone());
        central.connections().subscribe(advertiser.clone());
        central.disconnections().subscribe(advertiser.clone());
        advertiser
    }

    /// The current settings.
    pub fn state(&self) -> AdvState {
        proof {
            use_type_invariant(self);
        }
        let (state, guard) = self.state.acquire_write();
        let copy = state;
        guard.release_write(state);
        copy
    }

    /// Sets the interval (in units of 0.625 ms), the timeout, the kind of
    /// advertising, and whether to restart after a timeout or a disconnection.
    pub fn set_params(&self, interval: u16, timeout_s: u16, adv_type: BleGapAdvertisingType, auto_restart: bool) {
        proof {
            use_type_invariant(self);
        }
        let (mut state, guard) = self.state.acquire_write();
        state.interval = interval;
        state.timeout_s = timeout_s;
        state.adv_type = adv_type;
        state.auto_restart = auto_restart;
        guard.release_write(state);
    }

    /// Hands the encoded payloads to the radio, unless one of them is too long.
    pub fn set_data(&self, advertise_data: Option<&AdvData>, scan_response: Option<&AdvData>) -> (r: Result<(), NrfError>)
        ensures
            !(payload_fits(match advertise_data { Some(d) => Some(encoded(d@)), None => None })
                && payload_fits(match scan_response { Some(d) => Some(encoded(d@)), None => None }))
                ==> r == Err::<(), NrfError>(data_size_error()),
    {
        let adv_data = match advertise_data {
            Some(d) => Some(d.serialize()),
            None => None,
        };
        let scan_data = match scan_response {
            Some(d) => Some(d.serialize()),
            None => None,
        };
        match check_payloads(&adv_data, &scan_data) {
            Ok(()) => self.driver.ble_gap_adv_data_set(&adv_data, &scan_data),
            Err(e) => Err(e),
        }
    }

    /// Restarts advertising with the current settings; on success, a waitable for
    /// its timeout.
    pub fn start<F: FnOnce(EventArgs<Self, AdvertisingTimeoutEvent>)>(&self) -> Result<Arc<EventWaitable<Self, AdvertisingTimeoutEvent, F>>, NrfError>
        where T::Timeout: Downgrade<EventWaitable<Self, AdvertisingTimeoutEvent, F>>
    {
        match self.stop_advertising() {
            Ok(()) => {},
            Err(e) => {
                return Err(e);
            },
        }
        match self.start_advertising() {
            Ok(()) => Ok(EventWaitable::new(&self.on_timeout)),
            Err(e) => Err(e),
        }
    }

    fn start_advertising(&self) -> Result<(), NrfError> {
        proof {
            use_type_invariant(self);
        }
        let (mut state, guard) = self.state.acquire_write();
        let params = adv_params(&state);
        let result = self.driver.ble_gap_adv_start(&params);
        if result.is_ok() {
            state.is_advertising = true;
        }
        guard.release_write(state);
        result
    }

    /// Stops advertising and turns automatic restarts off.
    pub fn stop(&self) -> Result<(), NrfError> {
        proof {
            use_type_invariant(self);
        }
        let (mut state, guard) = self.state.acquire_write();
        state.auto_restart = false;
        guard.release_write(state);
        self.stop_advertising()
    }

    fn stop_advertising(&self) -> Result<(), NrfError> {
        proof {
            use_type_invariant(self);
        }
        let (mut state, guard) = self.state.acquire_write();
        state.is_advertising = false;
        guard.release_write(state);
        stop_outcome(self.driver.ble_gap_adv_stop())
    }
}

impl<
    S: DriverEventSource<R> + GapCommands,
    R: DriverSubscriberRefs<Sender = S>,
    Q: PeerSubscriberRefs<Peer<S, R, Q>>,
    T: AdvertiserSubscriberRefs<Advertiser<S, R, Q, T>>,
> Subscriber<Peer<S, R, Q>, ConnectionEvent> for Advertiser<S, R, Q, T> {
    fn handle(self: Arc<Self>, _sender: Arc<Peer<S, R, Q>>, _event: ConnectionEvent) -> Option<SubscriberAction> {
        proof {
            use_type_invariant(&*self);
        }
        let (mut state, guard) = self.state.acquire_write();
        state.is_advertising = false;
        guard.release_write(state);
        None
    }
}

impl<
    S: DriverEventSource<R> + GapCommands,
    R: DriverSubscriberRefs<Sender = S>,
    Q: PeerSubscriberRefs<Peer<S, R, Q>>,
    T: AdvertiserSubscriberRefs<Advertiser<S, R, Q, T>>,
> Subscriber<Peer<S, R, Q>, DisconnectionEvent> for Advertiser<S, R, Q, T> {
    fn handle(self: Arc<Self>, _sender: Arc<Peer<S, R, Q>>, _event: DisconnectionEvent) -> Option<SubscriberAction> {
        if self.state().auto_restart {
            let _restarted = self.start_advertising();
        }
        None
    }
}

impl<
    S: DriverEventSource<R> + GapCommands,
    R: DriverSubscriberRefs<Sender = S>,
    Q: PeerSubscriberRefs<Peer<S, R, Q>>,
    T: AdvertiserSubscriberRefs<Advertiser<S, R, Q, T>>,
> Subscriber<S, GapEventTimeout> for Advertiser<S, R, Q, T> {
    fn handle(self: Arc<Self>, _sender: Arc<S>, event: GapEventTimeout) -> Option<SubscriberAction> {
        proof {
            use_type_invariant(&*self);
        }
        if event.src == BleGapTimeoutSource::Advertising {
            // Announce first: a handler may call `stop` to turn restarts off.
            self.on_timeout.dispatch(self.clone(), AdvertisingTimeoutEvent {});
            let (mut state, guard) = self.state.acquire_write();
            if state.auto_restart {
                let params = adv_params(&state);
                let _restarted = self.driver.ble_gap_adv_start(&params);
            } else {
                state.is_advertising = false;
            }
            guard.release_write(state);
        }
        None
    }
}

} // verus!
