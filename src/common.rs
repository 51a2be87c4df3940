//! Status and severity codes shared by all event kinds.

use vstd::prelude::*;

verus! {

/// The HCI status a link operation ended with.
#[derive(Clone, Copy, Debug, PartialEq, Eq, Structural)]
pub enum BleHciStatus {
    Success,
    UnknownBtleCommand,
    UnknownConnectionIdentifier,
    AuthenticationFailure,
    PinOrKeyMissing,
    MemoryCapacityExceeded,
    ConnectionTimeout,
    CommandDisallowed,
    InvalidBtleCommandParameters,
    RemoteUserTerminatedConnection,
    RemoteDevTerminationDueToLowResources,
    RemoteDevTerminationDueToPowerOff,
    LocalHostTerminatedConnection,
    UnsupportedRemoteFeature,
    InvalidLmpParameters,
    UnspecifiedError,
    LmpResponseTimeout,
    LmpErrorTransactionCollision,
    LmpPduNotAllowed,
    InstantPassed,
    PairingWithUnitKeyUnsupported,
    DifferentTransactionCollision,
    ParameterOutOfMandatoryRange,
    ControllerBusy,
    ConnIntervalUnacceptable,
    DirectedAdvertiserTimeout,
    ConnTerminatedDueToMicFailure,
    ConnFailedToBeEstablished,
    InvalidHciCode,
}

/// The kind of user memory block a peer asked for.
#[derive(Clone, Copy, Debug, PartialEq, Eq, Structural)]
pub enum BleMemType {
    Invalid,
    GattsQueuedWrites,
}

/// The severity of a driver log line.
#[derive(Clone, Copy, Debug, PartialEq, Eq, Structural)]
pub enum BleLogSeverity {
    Trace,
    Debug,
    Info,
    Warning,
    Error,
    Fatal,
}

/// A status report of the serial transport.
#[derive(Clone, Copy, Debug, PartialEq, Eq, Structural)]
pub enum RpcAppStatus {
    PacketSendMaxTriesReached,
    PacketUnexpected,
    PacketEncodeError,
    PacketDecodeError,
    PacketSendError,
    IoResourcesUnavailable,
    ResetPerformed,
    ConnectionActive,
    Unknown,
}

} // verus!
