//! Errors of the transport and of the adapter.

use vstd::prelude::*;

verus! {

/// What a transport operation can report instead of a result.
///
/// `TryAgain` is the transport's way of saying that a non-blocking operation
/// could not make progress right now. Every other kind is terminal for the
/// operation that produced it.
#[derive(Debug, Clone, Copy, PartialEq, Eq, Structural)]
pub enum TransportError {
    Unknown,
    OperationNotSupported,
    ProtocolNotSupported,
    NoBufferSpace,
    NetworkDown,
    AddressInUse,
    AddressNotAvailable,
    ConnectionRefused,
    OperationNowInProgress,
    NotSocket,
    AddressFamilyNotSupported,
    WrongProtocol,
    TryAgain,
    BadFileDescriptor,
    InvalidInput,
    TooManyOpenFiles,
    BadAddress,
    PermissionDenied,
    NetworkReset,
    NetworkUnreachable,
    HostUnreachable,
    NotConnected,
    MessageTooLong,
    TimedOut,
    ConnectionAborted,
    ConnectionReset,
    ProtocolNotAvailable,
    AlreadyConnected,
    SocketTypeNotSupported,
    Terminating,
    NameTooLong,
    NoDevice,
    FileStateMismatch,
    Interrupted,
}

impl TransportError {
    /// Whether this is the transient "try again" report, which asks the
    /// caller to suspend rather than to fail.
    pub open spec fn is_transient(self) -> bool {
        self == TransportError::TryAgain
    }

    /// Tells the transient "try again" report from the terminal kinds.
    pub fn is_try_again(&self) -> (r: bool)
        ensures
            r == self.is_transient(),
    {
        match self {
            TransportError::TryAgain => true,
            _ => false,
        }
    }
}

/// Why the adapter refused or failed an operation.
///
/// The first four kinds are raised by the adapter itself and are violations
/// of its lifecycle: none of them is transient and none is worth a retry.
/// `Transport` carries a terminal report of the transport, unchanged.
#[derive(Debug, Clone, Copy, PartialEq, Eq, Structural)]
pub enum SocketError {
    /// Neither a receive nor a send tracker could be built, so there is
    /// nothing to poll on.
    NoUsableDirection,
    /// An endpoint was attached before; it stays, and no second one is
    /// accepted.
    EndpointAlreadyAttached,
    /// The operation needs an attached endpoint and the socket has none.
    EndpointMissing,
    /// The socket has no tracker for the direction of the operation.
    UnsupportedDirection,
    /// The transport failed the operation.
    Transport(TransportError),
}

impl SocketError {
    /// The adapter's own refusals, as opposed to reports of the transport.
    pub open spec fn is_lifecycle_violation(self) -> bool {
        !(self is Transport)
    }

    /// The transport-level kind under which this error is surfaced: a report
    /// of the transport as it came, and `Unknown` for each refusal of the
    /// adapter's own.
    pub open spec fn transport_kind(self) -> TransportError {
        match self {
            SocketError::Transport(e) => e,
            _ => TransportError::Unknown,
        }
    }

    /// Tells the adapter's own refusals from reports of the transport.
    pub fn is_lifecycle(&self) -> (r: bool)
        ensures
            r == self.is_lifecycle_violation(),
    {
        match self {
            SocketError::Transport(_) => false,
            _ => true,
        }
    }

    /// Flattens the error into the transport's vocabulary.
    pub fn to_transport(self) -> (r: TransportError)
        ensures
            r == self.transport_kind(),
            self.is_lifecycle_violation() ==> r == TransportError::Unknown,
    {
        match self {
            SocketError::Transport(e) => e,
            _ => TransportError::Unknown,
        }
    }
}

} // verus!
