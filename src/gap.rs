//! GAP types carried in event payloads.

use vstd::prelude::*;

verus! {

pub type ConnHandle = u16;

#[derive(Clone, Copy, Debug, PartialEq, Eq, Structural)]
pub enum BleGapAddressType {
    Public,
    Static,
    PrivateResolvable,
    PrivateNonresolvable,
}

#[derive(Clone, Copy, Debug, PartialEq, Eq, Structural)]
pub enum BleGapAdvertisingType {
    ConnectableUndirected,
    ConnectableDirected,
    ScannableUndirected,
    NonconnectableUndirected,
    ScanResponse,
}

#[derive(Clone, Copy, Debug, PartialEq, Eq, Structural)]
pub enum BleGapTimeoutSource {
    Advertising,
    Scan,
    Conn,
    AuthPayload,
}

#[derive(Clone, Copy, Debug, PartialEq, Eq, Structural)]
pub enum BleGapRole {
    Invalid,
    Peripheral,
    Central,
}

/// A set of PHYs, as the radio encodes it: one bit per PHY, none for automatic choice.
#[derive(Clone, Copy, Debug, PartialEq, Eq, Structural)]
pub struct BleGapPhy {
    pub bits: u8,
}

/// The bits that name a PHY.
pub const PHY_ALL_BITS: u8 = 0x07;

impl BleGapPhy {
    /// No preference: the radio picks.
    pub fn auto() -> (r: BleGapPhy)
        ensures
            r.bits == 0,
    {
        BleGapPhy { bits: 0x00 }
    }

    pub fn one_mbps() -> (r: BleGapPhy)
        ensures
            r.bits == 1,
    {
        BleGapPhy { bits: 0x01 }
    }

    pub fn two_mbps() -> (r: BleGapPhy)
        ensures
            r.bits == 2,
    {
        BleGapPhy { bits: 0x02 }
    }

    pub fn coded() -> (r: BleGapPhy)
        ensures
            r.bits == 4,
    {
        BleGapPhy { bits: 0x04 }
    }

    pub fn bits(&self) -> (r: u8)
        ensures
            r == self.bits,
    {
        self.bits
    }

    /// The set with these bits, or none when a bit names no PHY.
    pub fn from_bits(value: u8) -> (r: Option<BleGapPhy>)
        ensures
            r == (if value & !PHY_ALL_BITS == 0 { Some(BleGapPhy { bits: value }) } else { None::<BleGapPhy> }),
    {
        if value & !PHY_ALL_BITS == 0 {
            Some(BleGapPhy { bits: value })
        } else {
            None
        }
    }

    /// The set with these bits, or `AUTO` when a bit names no PHY.
    pub fn from_bits_or_default(value: u8) -> (r: BleGapPhy)
        ensures
            r.bits == (if value & !PHY_ALL_BITS == 0 { value } else { 0u8 }),
    {
        match BleGapPhy::from_bits(value) {
            Some(phy) => phy,
            None => BleGapPhy::auto(),
        }
    }
}

#[derive(Clone, Copy, Debug, PartialEq, Eq, Structural)]
pub struct BleGapPhys {
    pub tx_phys: BleGapPhy,
    pub rx_phys: BleGapPhy,
}

impl BleGapPhys {
    pub fn new(tx_phys: BleGapPhy, rx_phys: BleGapPhy) -> (r: BleGapPhys)
        ensures
            r.tx_phys == tx_phys,
            r.rx_phys == rx_phys,
    {
        BleGapPhys { tx_phys, rx_phys }
    }
}

impl Default for BleGapPhys {
    fn default() -> (r: BleGapPhys)
        ensures
            r.tx_phys.bits == 0,
            r.rx_phys.bits == 0,
    {
        BleGapPhys { tx_phys: BleGapPhy::auto(), rx_phys: BleGapPhy::auto() }
    }
}

/// Connection parameters as the radio reports them: intervals in units of 1.25 ms,
/// the supervision timeout in units of 10 ms.
#[derive(Clone, Copy, Debug, PartialEq, Eq, Structural)]
pub struct BleGapConnParams {
    pub min_conn_interval: u16,
    pub max_conn_interval: u16,
    pub slave_latency: u16,
    pub conn_sup_timeout: u16,
}

/// Advertising parameters: the interval in units of 0.625 ms, the timeout in
/// seconds (0 advertises until stopped), and the kind of advertising.
#[derive(Clone, Copy, Debug, PartialEq, Eq, Structural)]
pub struct BleGapAdvParams {
    pub interval: u16,
    pub timeout_s: u16,
    pub advertising_type: BleGapAdvertisingType,
}

impl BleGapAdvParams {
    pub fn new(interval: u16, timeout_s: u16, advertising_type: BleGapAdvertisingType) -> (r: BleGapAdvParams)
        ensures
            r == (BleGapAdvParams { interval, timeout_s, advertising_type }),
    {
        BleGapAdvParams { interval, timeout_s, advertising_type }
    }

    /// Connectable advertising every 40 ms for three minutes.
    pub fn default() -> (r: BleGapAdvParams)
        ensures
            r == (BleGapAdvParams { interval: 64, timeout_s: 180, advertising_type: BleGapAdvertisingType::ConnectableUndirected }),
    {
        BleGapAdvParams::new(64, 180, BleGapAdvertisingType::ConnectableUndirected)
    }
}

#[derive(Clone, Copy, Debug, PartialEq, Eq, Structural)]
pub struct BleGapDataLengthParams {
    pub max_tx_octets: u16,
    pub max_rx_octets: u16,
    pub max_tx_time_us: u16,
    pub max_rx_time_us: u16,
}

} // verus!
