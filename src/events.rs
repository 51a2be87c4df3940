//! Event payloads: those the driver reports, and those a connection republishes.

use vstd::prelude::*;

use crate::common::{BleHciStatus, BleMemType};
use crate::gap::{
    BleGapConnParams, BleGapDataLengthParams, BleGapPhy, BleGapPhys, BleGapRole,
    BleGapTimeoutSource, ConnHandle,
};
use crate::gap_address::BleGapAddress;

verus! {

#[derive(Clone, Copy, Debug, PartialEq, Eq, Structural)]
pub struct CommonEventMemRequest {
    pub conn_handle: ConnHandle,
    pub mem_type: BleMemType,
}

#[derive(Clone, Copy, Debug, PartialEq, Eq, Structural)]
pub struct CommonEventMemRelease {
    pub mem_type: BleMemType,
}

#[derive(Clone, Copy, Debug)]
pub struct GapEventConnected {
    pub conn_handle: ConnHandle,
    pub address: BleGapAddress,
    pub role: BleGapRole,
    pub conn_params: BleGapConnParams,
}

#[derive(Clone, Copy, Debug, PartialEq, Eq, Structural)]
pub struct GapEventDisconnected {
    pub conn_handle: ConnHandle,
    pub reason: BleHciStatus,
}

#[derive(Clone, Copy, Debug, PartialEq, Eq, Structural)]
pub struct GapEventTimeout {
    pub conn_handle: ConnHandle,
    pub src: BleGapTimeoutSource,
}

#[derive(Clone, Copy, Debug, PartialEq, Eq, Structural)]
pub struct GapEventPhyUpdateRequest {
    pub conn_handle: ConnHandle,
    pub peer_preferred_phys: BleGapPhys,
}

#[derive(Clone, Copy, Debug, PartialEq, Eq, Structural)]
pub struct GapEventPhyUpdate {
    pub conn_handle: ConnHandle,
    pub status: BleHciStatus,
    pub tx_phy: BleGapPhy,
    pub rx_phy: BleGapPhy,
}

#[derive(Clone, Copy, Debug, PartialEq, Eq, Structural)]
pub struct GapEventDataLengthUpdateRequest {
    pub conn_handle: ConnHandle,
    pub peer_params: BleGapDataLengthParams,
}

#[derive(Clone, Copy, Debug, PartialEq, Eq, Structural)]
pub struct GapEventDataLengthUpdate {
    pub conn_handle: ConnHandle,
    pub effective_params: BleGapDataLengthParams,
}

/// Advertising stopped because its time ran out.
#[derive(Clone, Copy, Debug, PartialEq, Eq, Structural)]
pub struct AdvertisingTimeoutEvent {}

/// A peer connected.
#[derive(Clone, Copy, Debug, PartialEq, Eq, Structural)]
pub struct ConnectionEvent {}

#[derive(Clone, Copy, Debug, PartialEq, Eq, Structural)]
pub struct DisconnectionEvent {
    pub reason: BleHciStatus,
}

#[derive(Clone, Copy, Debug, PartialEq, Eq, Structural)]
pub struct PhyUpdateEvent {
    pub tx_phy: BleGapPhy,
    pub rx_phy: BleGapPhy,
}

#[derive(Clone, Copy, Debug, PartialEq, Eq, Structural)]
pub struct DataLengthUpdateEvent {
    pub tx_bytes: u16,
    pub rx_bytes: u16,
    pub tx_time_us: u16,
    pub rx_time_us: u16,
}

/// The state of the link to a peer.
#[derive(Clone, Copy, Debug, PartialEq, Eq, Structural)]
pub enum PeerState {
    Disconnected,
    Connecting,
    Connected,
}

} // verus!
