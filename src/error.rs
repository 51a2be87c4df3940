//! Error codes returned by the driver.

use vstd::prelude::*;

use crate::text::{append_decimal, decimal};

verus! {

/// The code the driver returns on success.
pub const NRF_SUCCESS: u32 = 0;

/// The kinds of error the driver reports.
#[derive(Clone, Copy, Debug, PartialEq, Eq, Structural)]
pub enum NrfErrorType {
    Success,
    SvcHandlerMissing,
    SoftdeviceNotEnabled,
    Internal,
    NoMem,
    NotFound,
    NotSupported,
    InvalidParam,
    InvalidState,
    InvalidLength,
    InvalidFlags,
    InvalidData,
    DataSize,
    Timeout,
    Null,
    Forbidden,
    InvalidAddr,
    Busy,
    ConnCount,
    Resources,
    BleNotEnabled,
    BleInvalidConnHandle,
    BleInvalidAttrHandle,
    BleInvalidRole,
    SdRpcEncode,
    SdRpcDecode,
    SdRpcSend,
    SdRpcInvalidArgument,
    SdRpcNoResponse,
    SdRpcInvalidState,
    SdRpcSerializationTransport,
    SdRpcSerializationTransportInvalidState,
    SdRpcSerializationTransportNoResponse,
    SdRpcSerializationTransportAlreadyOpen,
    SdRpcSerializationTransportAlreadyClosed,
    SdRpcH5Transport,
    SdRpcH5TransportState,
    SdRpcH5TransportNoResponse,
    SdRpcH5TransportSlipPayloadSize,
    SdRpcH5TransportSlipCalculatedPayloadSize,
    SdRpcH5TransportSlipDecoding,
    SdRpcH5TransportHeaderChecksum,
    SdRpcH5TransportPacketChecksum,
    SdRpcH5TransportAlreadyOpen,
    SdRpcH5TransportAlreadyClosed,
    SdRpcH5TransportInternalError,
    SdRpcSerialPort,
    SdRpcSerialPortState,
    SdRpcSerialPortAlreadyOpen,
    SdRpcSerialPortAlreadyClosed,
    SdRpcSerialPortInternalError,
    Unknown,
}

/// The code the driver uses for each kind.
pub open spec fn error_code_of(t: NrfErrorType) -> u32 {
    match t {
        NrfErrorType::Success => 0,
        NrfErrorType::SvcHandlerMissing => 1,
        NrfErrorType::SoftdeviceNotEnabled => 2,
        NrfErrorType::Internal => 3,
        NrfErrorType::NoMem => 4,
        NrfErrorType::NotFound => 5,
        NrfErrorType::NotSupported => 6,
        NrfErrorType::InvalidParam => 7,
        NrfErrorType::InvalidState => 8,
        NrfErrorType::InvalidLength => 9,
        NrfErrorType::InvalidFlags => 10,
        NrfErrorType::InvalidData => 11,
        NrfErrorType::DataSize => 12,
        NrfErrorType::Timeout => 13,
        NrfErrorType::Null => 14,
        NrfErrorType::Forbidden => 15,
        NrfErrorType::InvalidAddr => 0x10,
        NrfErrorType::Busy => 0x11,
        NrfErrorType::ConnCount => 0x12,
        NrfErrorType::Resources => 0x13,
        NrfErrorType::BleNotEnabled => 0x3001,
        NrfErrorType::BleInvalidConnHandle => 0x3002,
        NrfErrorType::BleInvalidAttrHandle => 0x3003,
        NrfErrorType::BleInvalidRole => 0x3004,
        NrfErrorType::SdRpcEncode => 0x8001,
        NrfErrorType::SdRpcDecode => 0x8002,
        NrfErrorType::SdRpcSend => 0x8003,
        NrfErrorType::SdRpcInvalidArgument => 0x8004,
        NrfErrorType::SdRpcNoResponse => 0x8005,
        NrfErrorType::SdRpcInvalidState => 0x8006,
        NrfErrorType::SdRpcSerializationTransport => 0x8014,
        NrfErrorType::SdRpcSerializationTransportInvalidState => 0x8015,
        NrfErrorType::SdRpcSerializationTransportNoResponse => 0x8016,
        NrfErrorType::SdRpcSerializationTransportAlreadyOpen => 0x8017,
        NrfErrorType::SdRpcSerializationTransportAlreadyClosed => 0x8018,
        NrfErrorType::SdRpcH5Transport => 0x8028,
        NrfErrorType::SdRpcH5TransportState => 0x8029,
        NrfErrorType::SdRpcH5TransportNoResponse => 0x802A,
        NrfErrorType::SdRpcH5TransportSlipPayloadSize => 0x802B,
        NrfErrorType::SdRpcH5TransportSlipCalculatedPayloadSize => 0x802C,
        NrfErrorType::SdRpcH5TransportSlipDecoding => 0x802D,
        NrfErrorType::SdRpcH5TransportHeaderChecksum => 0x802E,
        NrfErrorType::SdRpcH5TransportPacketChecksum => 0x802F,
        NrfErrorType::SdRpcH5TransportAlreadyOpen => 0x8030,
        NrfErrorType::SdRpcH5TransportAlreadyClosed => 0x8031,
        NrfErrorType::SdRpcH5TransportInternalError => 0x8032,
        NrfErrorType::SdRpcSerialPort => 0x803C,
        NrfErrorType::SdRpcSerialPortState => 0x803D,
        NrfErrorType::SdRpcSerialPortAlreadyOpen => 0x803E,
        NrfErrorType::SdRpcSerialPortAlreadyClosed => 0x803F,
        NrfErrorType::SdRpcSerialPortInternalError => 0x8040,
        NrfErrorType::Unknown => 0xFFFFFFFF,
    }
}

/// The name of each kind, as it appears in messages.
pub open spec fn error_name(t: NrfErrorType) -> &'static str {
    match t {
        NrfErrorType::Success => "Success",
        NrfErrorType::SvcHandlerMissing => "SvcHandlerMissing",
        NrfErrorType::SoftdeviceNotEnabled => "SoftdeviceNotEnabled",
        NrfErrorType::Internal => "Internal",
        NrfErrorType::NoMem => "NoMem",
        NrfErrorType::NotFound => "NotFound",
        NrfErrorType::NotSupported => "NotSupported",
        NrfErrorType::InvalidParam => "InvalidParam",
        NrfErrorType::InvalidState => "InvalidState",
        NrfErrorType::InvalidLength => "InvalidLength",
        NrfErrorType::InvalidFlags => "InvalidFlags",
        NrfErrorType::InvalidData => "InvalidData",
        NrfErrorType::DataSize => "DataSize",
        NrfErrorType::Timeout => "Timeout",
        NrfErrorType::Null => "Null",
        NrfErrorType::Forbidden => "Forbidden",
        NrfErrorType::InvalidAddr => "InvalidAddr",
        NrfErrorType::Busy => "Busy",
        NrfErrorType::ConnCount => "ConnCount",
        NrfErrorType::Resources => "Resources",
        NrfErrorType::BleNotEnabled => "BleNotEnabled",
        NrfErrorType::BleInvalidConnHandle => "BleInvalidConnHandle",
        NrfErrorType::BleInvalidAttrHandle => "BleInvalidAttrHandle",
        NrfErrorType::BleInvalidRole => "BleInvalidRole",
        NrfErrorType::SdRpcEncode => "SdRpcEncode",
        NrfErrorType::SdRpcDecode => "SdRpcDecode",
        NrfErrorType::SdRpcSend => "SdRpcSend",
        NrfErrorType::SdRpcInvalidArgument => "SdRpcInvalidArgument",
        NrfErrorType::SdRpcNoResponse => "SdRpcNoResponse",
        NrfErrorType::SdRpcInvalidState => "SdRpcInvalidState",
        NrfErrorType::SdRpcSerializationTransport => "SdRpcSerializationTransport",
        NrfErrorType::SdRpcSerializationTransportInvalidState => "SdRpcSerializationTransportInvalidState",
        NrfErrorType::SdRpcSerializationTransportNoResponse => "SdRpcSerializationTransportNoResponse",
        NrfErrorType::SdRpcSerializationTransportAlreadyOpen => "SdRpcSerializationTransportAlreadyOpen",
        NrfErrorType::SdRpcSerializationTransportAlreadyClosed => "SdRpcSerializationTransportAlreadyClosed",
        NrfErrorType::SdRpcH5Transport => "SdRpcH5Transport",
        NrfErrorType::SdRpcH5TransportState => "SdRpcH5TransportState",
        NrfErrorType::SdRpcH5TransportNoResponse => "SdRpcH5TransportNoResponse",
        NrfErrorType::SdRpcH5TransportSlipPayloadSize => "SdRpcH5TransportSlipPayloadSize",
        NrfErrorType::SdRpcH5TransportSlipCalculatedPayloadSize => "SdRpcH5TransportSlipCalculatedPayloadSize",
        NrfErrorType::SdRpcH5TransportSlipDecoding => "SdRpcH5TransportSlipDecoding",
        NrfErrorType::SdRpcH5TransportHeaderChecksum => "SdRpcH5TransportHeaderChecksum",
        NrfErrorType::SdRpcH5TransportPacketChecksum => "SdRpcH5TransportPacketChecksum",
        NrfErrorType::SdRpcH5TransportAlreadyOpen => "SdRpcH5TransportAlreadyOpen",
        NrfErrorType::SdRpcH5TransportAlreadyClosed => "SdRpcH5TransportAlreadyClosed",
        NrfErrorType::SdRpcH5TransportInternalError => "SdRpcH5TransportInternalError",
        NrfErrorType::SdRpcSerialPort => "SdRpcSerialPort",
        NrfErrorType::SdRpcSerialPortState => "SdRpcSerialPortState",
        NrfErrorType::SdRpcSerialPortAlreadyOpen => "SdRpcSerialPortAlreadyOpen",
        NrfErrorType::SdRpcSerialPortAlreadyClosed => "SdRpcSerialPortAlreadyClosed",
        NrfErrorType::SdRpcSerialPortInternalError => "SdRpcSerialPortInternalError",
        NrfErrorType::Unknown => "Unknown",
    }
}

/// The kind a code stands for: the kind whose code it is, else `Unknown`.
pub open spec fn error_type_of(code: u32) -> NrfErrorType {
    match code {
        0 => NrfErrorType::Success,
        1 => NrfErrorType::SvcHandlerMissing,
        2 => NrfErrorType::SoftdeviceNotEnabled,
        3 => NrfErrorType::Internal,
        4 => NrfErrorType::NoMem,
        5 => NrfErrorType::NotFound,
        6 => NrfErrorType::NotSupported,
        7 => NrfErrorType::InvalidParam,
        8 => NrfErrorType::InvalidState,
        9 => NrfErrorType::InvalidLength,
        10 => NrfErrorType::InvalidFlags,
        11 => NrfErrorType::InvalidData,
        12 => NrfErrorType::DataSize,
        13 => NrfErrorType::Timeout,
        14 => NrfErrorType::Null,
        15 => NrfErrorType::Forbidden,
        0x10 => NrfErrorType::InvalidAddr,
        0x11 => NrfErrorType::Busy,
        0x12 => NrfErrorType::ConnCount,
        0x13 => NrfErrorType::Resources,
        0x3001 => NrfErrorType::BleNotEnabled,
        0x3002 => NrfErrorType::BleInvalidConnHandle,
        0x3003 => NrfErrorType::BleInvalidAttrHandle,
        0x3004 => NrfErrorType::BleInvalidRole,
        0x8001 => NrfErrorType::SdRpcEncode,
        0x8002 => NrfErrorType::SdRpcDecode,
        0x8003 => NrfErrorType::SdRpcSend,
        0x8004 => NrfErrorType::SdRpcInvalidArgument,
        0x8005 => NrfErrorType::SdRpcNoResponse,
        0x8006 => NrfErrorType::SdRpcInvalidState,
        0x8014 => NrfErrorType::SdRpcSerializationTransport,
        0x8015 => NrfErrorType::SdRpcSerializationTransportInvalidState,
        0x8016 => NrfErrorType::SdRpcSerializationTransportNoResponse,
        0x8017 => NrfErrorType::SdRpcSerializationTransportAlreadyOpen,
        0x8018 => NrfErrorType::SdRpcSerializationTransportAlreadyClosed,
        0x8028 => NrfErrorType::SdRpcH5Transport,
        0x8029 => NrfErrorType::SdRpcH5TransportState,
        0x802A => NrfErrorType::SdRpcH5TransportNoResponse,
        0x802B => NrfErrorType::SdRpcH5TransportSlipPayloadSize,
        0x802C => NrfErrorType::SdRpcH5TransportSlipCalculatedPayloadSize,
        0x802D => NrfErrorType::SdRpcH5TransportSlipDecoding,
        0x802E => NrfErrorType::SdRpcH5TransportHeaderChecksum,
        0x802F => NrfErrorType::SdRpcH5TransportPacketChecksum,
        0x8030 => NrfErrorType::SdRpcH5TransportAlreadyOpen,
        0x8031 => NrfErrorType::SdRpcH5TransportAlreadyClosed,
        0x8032 => NrfErrorType::SdRpcH5TransportInternalError,
        0x803C => NrfErrorType::SdRpcSerialPort,
        0x803D => NrfErrorType::SdRpcSerialPortState,
        0x803E => NrfErrorType::SdRpcSerialPortAlreadyOpen,
        0x803F => NrfErrorType::SdRpcSerialPortAlreadyClosed,
        0x8040 => NrfErrorType::SdRpcSerialPortInternalError,
        _ => NrfErrorType::Unknown,
    }
}

/// Reading back the code of a known kind gives that kind.
pub proof fn lemma_error_code_round_trip(t: NrfErrorType)
    requires
        t != NrfErrorType::Unknown,
    ensures
        error_type_of(error_code_of(t)) == t,
{
}

impl NrfErrorType {
    /// The kind whose code is `err`, or `Unknown` when no kind has that code.
    pub fn from(err: u32) -> (r: NrfErrorType)
        ensures
            r == error_type_of(err),
    {
        match err {
            0 => NrfErrorType::Success,
            1 => NrfErrorType::SvcHandlerMissing,
            2 => NrfErrorType::SoftdeviceNotEnabled,
            3 => NrfErrorType::Internal,
            4 => NrfErrorType::NoMem,
            5 => NrfErrorType::NotFound,
            6 => NrfErrorType::NotSupported,
            7 => NrfErrorType::InvalidParam,
            8 => NrfErrorType::InvalidState,
            9 => NrfErrorType::InvalidLength,
            10 => NrfErrorType::InvalidFlags,
            11 => NrfErrorType::InvalidData,
            12 => NrfErrorType::DataSize,
            13 => NrfErrorType::Timeout,
            14 => NrfErrorType::Null,
            15 => NrfErrorType::Forbidden,
            0x10 => NrfErrorType::InvalidAddr,
            0x11 => NrfErrorType::Busy,
            0x12 => NrfErrorType::ConnCount,
            0x13 => NrfErrorType::Resources,
            0x3001 => NrfErrorType::BleNotEnabled,
            0x3002 => NrfErrorType::BleInvalidConnHandle,
            0x3003 => NrfErrorType::BleInvalidAttrHandle,
            0x3004 => NrfErrorType::BleInvalidRole,
            0x8001 => NrfErrorType::SdRpcEncode,
            0x8002 => NrfErrorType::SdRpcDecode,
            0x8003 => NrfErrorType::SdRpcSend,
            0x8004 => NrfErrorType::SdRpcInvalidArgument,
            0x8005 => NrfErrorType::SdRpcNoResponse,
            0x8006 => NrfErrorType::SdRpcInvalidState,
            0x8014 => NrfErrorType::SdRpcSerializationTransport,
            0x8015 => NrfErrorType::SdRpcSerializationTransportInvalidState,
            0x8016 => NrfErrorType::SdRpcSerializationTransportNoResponse,
            0x8017 => NrfErrorType::SdRpcSerializationTransportAlreadyOpen,
            0x8018 => NrfErrorType::SdRpcSerializationTransportAlreadyClosed,
            0x8028 => NrfErrorType::SdRpcH5Transport,
            0x8029 => NrfErrorType::SdRpcH5TransportState,
            0x802A => NrfErrorType::SdRpcH5TransportNoResponse,
            0x802B => NrfErrorType::SdRpcH5TransportSlipPayloadSize,
            0x802C => NrfErrorType::SdRpcH5TransportSlipCalculatedPayloadSize,
            0x802D => NrfErrorType::SdRpcH5TransportSlipDecoding,
            0x802E => NrfErrorType::SdRpcH5TransportHeaderChecksum,
            0x802F => NrfErrorType::SdRpcH5TransportPacketChecksum,
            0x8030 => NrfErrorType::SdRpcH5TransportAlreadyOpen,
            0x8031 => NrfErrorType::SdRpcH5TransportAlreadyClosed,
            0x8032 => NrfErrorType::SdRpcH5TransportInternalError,
            0x803C => NrfErrorType::SdRpcSerialPort,
            0x803D => NrfErrorType::SdRpcSerialPortState,
            0x803E => NrfErrorType::SdRpcSerialPortAlreadyOpen,
            0x803F => NrfErrorType::SdRpcSerialPortAlreadyClosed,
            0x8040 => NrfErrorType::SdRpcSerialPortInternalError,
            _ => NrfErrorType::Unknown,
        }
    }

    /// The code of this kind.
    pub fn code(&self) -> (r: u32)
        ensures
            r == error_code_of(*self),
    {
        match self {
            NrfErrorType::Success => 0,
            NrfErrorType::SvcHandlerMissing => 1,
            NrfErrorType::SoftdeviceNotEnabled => 2,
            NrfErrorType::Internal => 3,
            NrfErrorType::NoMem => 4,
            NrfErrorType::NotFound => 5,
            NrfErrorType::NotSupported => 6,
            NrfErrorType::InvalidParam => 7,
            NrfErrorType::InvalidState => 8,
            NrfErrorType::InvalidLength => 9,
            NrfErrorType::InvalidFlags => 10,
            NrfErrorType::InvalidData => 11,
            NrfErrorType::DataSize => 12,
            NrfErrorType::Timeout => 13,
            NrfErrorType::Null => 14,
            NrfErrorType::Forbidden => 15,
            NrfErrorType::InvalidAddr => 0x10,
            NrfErrorType::Busy => 0x11,
            NrfErrorType::ConnCount => 0x12,
            NrfErrorType::Resources => 0x13,
            NrfErrorType::BleNotEnabled => 0x3001,
            NrfErrorType::BleInvalidConnHandle => 0x3002,
            NrfErrorType::BleInvalidAttrHandle => 0x3003,
            NrfErrorType::BleInvalidRole => 0x3004,
            NrfErrorType::SdRpcEncode => 0x8001,
            NrfErrorType::SdRpcDecode => 0x8002,
            NrfErrorType::SdRpcSend => 0x8003,
            NrfErrorType::SdRpcInvalidArgument => 0x8004,
            NrfErrorType::SdRpcNoResponse => 0x8005,
            NrfErrorType::SdRpcInvalidState => 0x8006,
            NrfErrorType::SdRpcSerializationTransport => 0x8014,
            NrfErrorType::SdRpcSerializationTransportInvalidState => 0x8015,
            NrfErrorType::SdRpcSerializationTransportNoResponse => 0x8016,
            NrfErrorType::SdRpcSerializationTransportAlreadyOpen => 0x8017,
            NrfErrorType::SdRpcSerializationTransportAlreadyClosed => 0x8018,
            NrfErrorType::SdRpcH5Transport => 0x8028,
            NrfErrorType::SdRpcH5TransportState => 0x8029,
            NrfErrorType::SdRpcH5TransportNoResponse => 0x802A,
            NrfErrorType::SdRpcH5TransportSlipPayloadSize => 0x802B,
            NrfErrorType::SdRpcH5TransportSlipCalculatedPayloadSize => 0x802C,
            NrfErrorType::SdRpcH5TransportSlipDecoding => 0x802D,
            NrfErrorType::SdRpcH5TransportHeaderChecksum => 0x802E,
            NrfErrorType::SdRpcH5TransportPacketChecksum => 0x802F,
            NrfErrorType::SdRpcH5TransportAlreadyOpen => 0x8030,
            NrfErrorType::SdRpcH5TransportAlreadyClosed => 0x8031,
            NrfErrorType::SdRpcH5TransportInternalError => 0x8032,
            NrfErrorType::SdRpcSerialPort => 0x803C,
            NrfErrorType::SdRpcSerialPortState => 0x803D,
            NrfErrorType::SdRpcSerialPortAlreadyOpen => 0x803E,
            NrfErrorType::SdRpcSerialPortAlreadyClosed => 0x803F,
            NrfErrorType::SdRpcSerialPortInternalError => 0x8040,
            NrfErrorType::Unknown => 0xFFFFFFFF,
        }
    }

    /// The name of this kind.
    pub fn name(&self) -> (r: &'static str)
        ensures
            r == error_name(*self),
    {
        match self {
            NrfErrorType::Success => "Success",
            NrfErrorType::SvcHandlerMissing => "SvcHandlerMissing",
            NrfErrorType::SoftdeviceNotEnabled => "SoftdeviceNotEnabled",
            NrfErrorType::Internal => "Internal",
            NrfErrorType::NoMem => "NoMem",
            NrfErrorType::NotFound => "NotFound",
            NrfErrorType::NotSupported => "NotSupported",
            NrfErrorType::InvalidParam => "InvalidParam",
            NrfErrorType::InvalidState => "InvalidState",
            NrfErrorType::InvalidLength => "InvalidLength",
            NrfErrorType::InvalidFlags => "InvalidFlags",
            NrfErrorType::InvalidData => "InvalidData",
            NrfErrorType::DataSize => "DataSize",
            NrfErrorType::Timeout => "Timeout",
            NrfErrorType::Null => "Null",
            NrfErrorType::Forbidden => "Forbidden",
            NrfErrorType::InvalidAddr => "InvalidAddr",
            NrfErrorType::Busy => "Busy",
            NrfErrorType::ConnCount => "ConnCount",
            NrfErrorType::Resources => "Resources",
            NrfErrorType::BleNotEnabled => "BleNotEnabled",
            NrfErrorType::BleInvalidConnHandle => "BleInvalidConnHandle",
            NrfErrorType::BleInvalidAttrHandle => "BleInvalidAttrHandle",
            NrfErrorType::BleInvalidRole => "BleInvalidRole",
            NrfErrorType::SdRpcEncode => "SdRpcEncode",
            NrfErrorType::SdRpcDecode => "SdRpcDecode",
            NrfErrorType::SdRpcSend => "SdRpcSend",
            NrfErrorType::SdRpcInvalidArgument => "SdRpcInvalidArgument",
            NrfErrorType::SdRpcNoResponse => "SdRpcNoResponse",
            NrfErrorType::SdRpcInvalidState => "SdRpcInvalidState",
            NrfErrorType::SdRpcSerializationTransport => "SdRpcSerializationTransport",
            NrfErrorType::SdRpcSerializationTransportInvalidState => "SdRpcSerializationTransportInvalidState",
            NrfErrorType::SdRpcSerializationTransportNoResponse => "SdRpcSerializationTransportNoResponse",
            NrfErrorType::SdRpcSerializationTransportAlreadyOpen => "SdRpcSerializationTransportAlreadyOpen",
            NrfErrorType::SdRpcSerializationTransportAlreadyClosed => "SdRpcSerializationTransportAlreadyClosed",
            NrfErrorType::SdRpcH5Transport => "SdRpcH5Transport",
            NrfErrorType::SdRpcH5TransportState => "SdRpcH5TransportState",
            NrfErrorType::SdRpcH5TransportNoResponse => "SdRpcH5TransportNoResponse",
            NrfErrorType::SdRpcH5TransportSlipPayloadSize => "SdRpcH5TransportSlipPayloadSize",
            NrfErrorType::SdRpcH5TransportSlipCalculatedPayloadSize => "SdRpcH5TransportSlipCalculatedPayloadSize",
            NrfErrorType::SdRpcH5TransportSlipDecoding => "SdRpcH5TransportSlipDecoding",
            NrfErrorType::SdRpcH5TransportHeaderChecksum => "SdRpcH5TransportHeaderChecksum",
            NrfErrorType::SdRpcH5TransportPacketChecksum => "SdRpcH5TransportPacketChecksum",
            NrfErrorType::SdRpcH5TransportAlreadyOpen => "SdRpcH5TransportAlreadyOpen",
            NrfErrorType::SdRpcH5TransportAlreadyClosed => "SdRpcH5TransportAlreadyClosed",
            NrfErrorType::SdRpcH5TransportInternalError => "SdRpcH5TransportInternalError",
            NrfErrorType::SdRpcSerialPort => "SdRpcSerialPort",
            NrfErrorType::SdRpcSerialPortState => "SdRpcSerialPortState",
            NrfErrorType::SdRpcSerialPortAlreadyOpen => "SdRpcSerialPortAlreadyOpen",
            NrfErrorType::SdRpcSerialPortAlreadyClosed => "SdRpcSerialPortAlreadyClosed",
            NrfErrorType::SdRpcSerialPortInternalError => "SdRpcSerialPortInternalError",
            NrfErrorType::Unknown => "Unknown",
        }
    }
}

/// An error the driver returned: its kind and the raw code.
#[derive(Clone, Copy, Debug, PartialEq, Eq, Structural)]
pub struct NrfError {
    pub error_type: NrfErrorType,
    pub error_code: u32,
}

/// The error for a raw code whose kind is already known.
pub open spec fn error_with(code: u32, t: NrfErrorType) -> NrfError {
    NrfError { error_type: t, error_code: code }
}

/// The text of an error: the kind's name, then the code in decimal in parentheses.
pub open spec fn error_text(e: NrfError) -> Seq<char> {
    error_name(e.error_type)@ + seq!['('] + decimal(e.error_code as nat) + seq![')']
}

impl NrfError {
    pub fn new(err: u32) -> (r: NrfError)
        ensures
            r == error_with(err, error_type_of(err)),
    {
        NrfError { error_type: NrfErrorType::from(err), error_code: err }
    }

    /// `Ok` when the driver returned success, else the error for the code.
    pub fn make_result(err: u32) -> (r: Result<(), NrfError>)
        ensures
            err == NRF_SUCCESS <==> r is Ok,
            r matches Err(e) ==> e == error_with(err, error_type_of(err)),
    {
        if err == NRF_SUCCESS {
            Ok(())
        } else {
            Err(NrfError::new(err))
        }
    }

    /// `Ok` with what `f` builds when the driver returned success (`f` runs only
    /// then), else the error for the code.
    pub fn make_result_typed<T, F: FnOnce() -> T>(err: u32, f: F) -> (r: Result<T, NrfError>)
        requires
            f.requires(()),
        ensures
            err == NRF_SUCCESS <==> r is Ok,
            r matches Ok(v) ==> f.ensures((), v),
            r matches Err(e) ==> e == error_with(err, error_type_of(err)),
    {
        if err == NRF_SUCCESS {
            Ok(f())
        } else {
            Err(NrfError::new(err))
        }
    }

    /// The error as text, for instance `InvalidState(8)`.
    pub fn to_string(&self) -> (r: String)
        ensures
            r@ == error_text(*self),
    {
        let mut s = String::from_str(self.error_type.name());
        s.append("(");
        append_decimal(&mut s, self.error_code as u64);
        s.append(")");
        proof {
            reveal_strlit("(");
            reveal_strlit(")");
        }
        s
    }
}

} // verus!
