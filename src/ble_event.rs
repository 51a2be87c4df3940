//! Event kinds and the decoded events of the driver, tagged by kind.

use vstd::prelude::*;

use crate::events::{
    CommonEventMemRelease, CommonEventMemRequest, GapEventConnected, GapEventDataLengthUpdate,
    GapEventDataLengthUpdateRequest, GapEventDisconnected, GapEventPhyUpdate,
    GapEventPhyUpdateRequest, GapEventTimeout,
};

verus! {

/// Kinds of the events common to all protocol layers.
#[derive(Clone, Copy, Debug, PartialEq, Eq, Structural)]
pub enum CommonEventId {
    MemRequest,
    MemRelease,
}

/// Kinds of the GAP events this binding decodes.
#[derive(Clone, Copy, Debug, PartialEq, Eq, Structural)]
pub enum GapEventId {
    Connected,
    Disconnected,
    Timeout,
    PhyUpdateRequest,
    PhyUpdate,
    DataLengthUpdateRequest,
    DataLengthUpdate,
}

/// The kind of a decoded event.
#[derive(Clone, Copy, Debug, PartialEq, Eq, Structural)]
pub enum BleEventId {
    Common(CommonEventId),
    Gap(GapEventId),
}

/// The event code the radio uses for a common event kind.
pub open spec fn common_event_code(id: CommonEventId) -> u16 {
    match id {
        CommonEventId::MemRequest => 0x01,
        CommonEventId::MemRelease => 0x02,
    }
}

/// The event code the radio uses for a GAP event kind.
pub open spec fn gap_event_code(id: GapEventId) -> u16 {
    match id {
        GapEventId::Connected => 0x10,
        GapEventId::Disconnected => 0x11,
        GapEventId::Timeout => 0x1B,
        GapEventId::PhyUpdateRequest => 0x21,
        GapEventId::PhyUpdate => 0x22,
        GapEventId::DataLengthUpdateRequest => 0x23,
        GapEventId::DataLengthUpdate => 0x24,
    }
}

pub open spec fn event_code(id: BleEventId) -> u16 {
    match id {
        BleEventId::Common(c) => common_event_code(c),
        BleEventId::Gap(g) => gap_event_code(g),
    }
}

impl CommonEventId {
    /// The kind with this event code, if it is a common one.
    pub fn try_from(id: u16) -> (r: Option<CommonEventId>)
        ensures
            match r {
                Some(k) => common_event_code(k) == id,
                None => forall|k: CommonEventId| common_event_code(k) != id,
            },
    {
        match id {
            0x01 => Some(CommonEventId::MemRequest),
            0x02 => Some(CommonEventId::MemRelease),
            _ => None,
        }
    }

    pub fn code(self) -> (r: u16)
        ensures
            r == common_event_code(self),
    {
        match self {
            CommonEventId::MemRequest => 0x01,
            CommonEventId::MemRelease => 0x02,
        }
    }
}

impl GapEventId {
    /// The kind with this event code, if it is a GAP one this binding decodes.
    pub fn try_from(id: u16) -> (r: Option<GapEventId>)
        ensures
            match r {
                Some(k) => gap_event_code(k) == id,
                None => forall|k: GapEventId| gap_event_code(k) != id,
            },
    {
        match id {
            0x10 => Some(GapEventId::Connected),
            0x11 => Some(GapEventId::Disconnected),
            0x1B => Some(GapEventId::Timeout),
            0x21 => Some(GapEventId::PhyUpdateRequest),
            0x22 => Some(GapEventId::PhyUpdate),
            0x23 => Some(GapEventId::DataLengthUpdateRequest),
            0x24 => Some(GapEventId::DataLengthUpdate),
            _ => None,
        }
    }

    pub fn code(self) -> (r: u16)
        ensures
            r == gap_event_code(self),
    {
        match self {
            GapEventId::Connected => 0x10,
            GapEventId::Disconnected => 0x11,
            GapEventId::Timeout => 0x1B,
            GapEventId::PhyUpdateRequest => 0x21,
            GapEventId::PhyUpdate => 0x22,
            GapEventId::DataLengthUpdateRequest => 0x23,
            GapEventId::DataLengthUpdate => 0x24,
        }
    }
}

impl BleEventId {
    /// The kind with this event code, if the binding decodes it.
    pub fn from_u16(id: u16) -> (r: Option<BleEventId>)
        ensures
            match r {
                Some(k) => event_code(k) == id,
                None => forall|k: BleEventId| event_code(k) != id,
            },
    {
        if let Some(c) = CommonEventId::try_from(id) {
            Some(BleEventId::Common(c))
        } else if let Some(g) = GapEventId::try_from(id) {
            Some(BleEventId::Gap(g))
        } else {
            proof {
                assert forall|k: BleEventId| event_code(k) != id by {
                    match k {
                        BleEventId::Common(c) => {},
                        BleEventId::Gap(g) => {},
                    }
                }
            }
            None
        }
    }

    /// The event code of this kind.
    pub fn code(self) -> (r: u16)
        ensures
            r == event_code(self),
    {
        match self {
            BleEventId::Common(c) => c.code(),
            BleEventId::Gap(g) => g.code(),
        }
    }
}

impl From<BleEventId> for u16 {
    fn from(id: BleEventId) -> (r: u16) {
        id.code()
    }
}

impl vstd::std_specs::convert::FromSpecImpl<BleEventId> for u16 {
    open spec fn obeys_from_spec() -> bool {
        true
    }

    open spec fn from_spec(id: BleEventId) -> u16 {
        event_code(id)
    }
}

impl From<CommonEventId> for BleEventId {
    fn from(id: CommonEventId) -> (r: BleEventId) {
        BleEventId::Common(id)
    }
}

impl vstd::std_specs::convert::FromSpecImpl<CommonEventId> for BleEventId {
    open spec fn obeys_from_spec() -> bool {
        true
    }

    open spec fn from_spec(id: CommonEventId) -> BleEventId {
        BleEventId::Common(id)
    }
}

impl From<GapEventId> for BleEventId {
    fn from(id: GapEventId) -> (r: BleEventId) {
        BleEventId::Gap(id)
    }
}

impl vstd::std_specs::convert::FromSpecImpl<GapEventId> for BleEventId {
    open spec fn obeys_from_spec() -> bool {
        true
    }

    open spec fn from_spec(id: GapEventId) -> BleEventId {
        BleEventId::Gap(id)
    }
}

#[derive(Clone, Copy, Debug)]
pub enum CommonEvent {
    MemRequest(CommonEventMemRequest),
    MemRelease(CommonEventMemRelease),
}

#[derive(Clone, Copy, Debug)]
pub enum GapEvent {
    Connected(GapEventConnected),
    Disconnected(GapEventDisconnected),
    Timeout(GapEventTimeout),
    PhyUpdateRequest(GapEventPhyUpdateRequest),
    PhyUpdate(GapEventPhyUpdate),
    DataLengthUpdateRequest(GapEventDataLengthUpdateRequest),
    DataLengthUpdate(GapEventDataLengthUpdate),
}

/// A decoded event, tagged by its layer.
#[derive(Clone, Copy, Debug)]
pub enum BleEventData {
    Common(CommonEvent),
    Gap(GapEvent),
}

/// The kind of a decoded event.
pub open spec fn kind_of(data: BleEventData) -> BleEventId {
    match data {
        BleEventData::Common(CommonEvent::MemRequest(_)) => BleEventId::Common(CommonEventId::MemRequest),
        BleEventData::Common(CommonEvent::MemRelease(_)) => BleEventId::Common(CommonEventId::MemRelease),
        BleEventData::Gap(GapEvent::Connected(_)) => BleEventId::Gap(GapEventId::Connected),
        BleEventData::Gap(GapEvent::Disconnected(_)) => BleEventId::Gap(GapEventId::Disconnected),
        BleEventData::Gap(GapEvent::Timeout(_)) => BleEventId::Gap(GapEventId::Timeout),
        BleEventData::Gap(GapEvent::PhyUpdateRequest(_)) => BleEventId::Gap(GapEventId::PhyUpdateRequest),
        BleEventData::Gap(GapEvent::PhyUpdate(_)) => BleEventId::Gap(GapEventId::PhyUpdate),
        BleEventData::Gap(GapEvent::DataLengthUpdateRequest(_)) => BleEventId::Gap(GapEventId::DataLengthUpdateRequest),
        BleEventData::Gap(GapEvent::DataLengthUpdate(_)) => BleEventId::Gap(GapEventId::DataLengthUpdate),
    }
}

impl BleEventData {
    /// The kind of this event.
    pub fn id(&self) -> (r: BleEventId)
        ensures
            r == kind_of(*self),
    {
        match self {
            BleEventData::Common(CommonEvent::MemRequest(_)) => BleEventId::Common(CommonEventId::MemRequest),
            BleEventData::Common(CommonEvent::MemRelease(_)) => BleEventId::Common(CommonEventId::MemRelease),
            BleEventData::Gap(GapEvent::Connected(_)) => BleEventId::Gap(GapEventId::Connected),
            BleEventData::Gap(GapEvent::Disconnected(_)) => BleEventId::Gap(GapEventId::Disconnected),
            BleEventData::Gap(GapEvent::Timeout(_)) => BleEventId::Gap(GapEventId::Timeout),
            BleEventData::Gap(GapEvent::PhyUpdateRequest(_)) => BleEventId::Gap(GapEventId::PhyUpdateRequest),
            BleEventData::Gap(GapEvent::PhyUpdate(_)) => BleEventId::Gap(GapEventId::PhyUpdate),
            BleEventData::Gap(GapEvent::DataLengthUpdateRequest(_)) => BleEventId::Gap(GapEventId::DataLengthUpdateRequest),
            BleEventData::Gap(GapEvent::DataLengthUpdate(_)) => BleEventId::Gap(GapEventId::DataLengthUpdate),
        }
    }
}

/// A raw event from the driver: its code, and the decoded event when the code is
/// one this binding knows.
#[derive(Clone, Copy, Debug)]
pub struct BleEvent {
    pub id: u16,
    pub data: Option<BleEventData>,
}

/// A payload type that belongs to one event kind.
pub trait BleEventDataType: Clone {
    fn id() -> BleEventId;
}

} // verus!
