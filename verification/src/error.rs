//! Error types shared by every module of the library.

use vstd::prelude::*;

verus! {

/// Shared validation reasons reused across public API errors.
#[derive(Debug, Clone, Copy, PartialEq, Eq, Structural)]
pub enum ValidationReason {
    /// The provided value was empty.
    Empty,
    /// The provided identifier exceeded the identifier length limit.
    IdentifierTooLong,
    /// The provided hostname exceeded the hostname length limit.
    HostnameTooLong,
    /// The first character was not allowed.
    InvalidStartCharacter,
    /// One or more characters were outside the allowed character set.
    InvalidCharacters,
}

/// Text of a validation reason, as the error's message renders it.
pub open spec fn validation_message(r: ValidationReason) -> Seq<char> {
    match r {
        ValidationReason::Empty => "must not be empty"@,
        ValidationReason::IdentifierTooLong => "must be at most 64 characters"@,
        ValidationReason::HostnameTooLong => "must be at most 253 characters"@,
        ValidationReason::InvalidStartCharacter => "must start with an ASCII letter or digit"@,
        ValidationReason::InvalidCharacters => "must contain only lowercase ASCII letters, digits, '-' or '_'"@,
    }
}

impl ValidationReason {
    /// Human-readable description of the reason.
    pub fn message(&self) -> (r: &'static str)
        ensures
            r@ == validation_message(*self),
    {
        match self {
            ValidationReason::Empty => "must not be empty",
            ValidationReason::IdentifierTooLong => "must be at most 64 characters",
            ValidationReason::HostnameTooLong => "must be at most 253 characters",
            ValidationReason::InvalidStartCharacter => "must start with an ASCII letter or digit",
            ValidationReason::InvalidCharacters => {
                "must contain only lowercase ASCII letters, digits, '-' or '_'"
            },
        }
    }
}

/// Shared reasons for allocation request failures.
#[derive(Debug, Clone, Copy, PartialEq, Eq, Structural)]
pub enum AllocationReason {
    /// The requested size was zero.
    ZeroSize,
    /// The requested size exceeded the current allocation limit.
    ExceedsMaxSize,
}

/// Text of an allocation refusal reason.
pub open spec fn allocation_message(r: AllocationReason) -> Seq<char> {
    match r {
        AllocationReason::ZeroSize => "allocation size must be greater than zero"@,
        AllocationReason::ExceedsMaxSize => "allocation size exceeds maximum supported size"@,
    }
}

impl AllocationReason {
    /// Human-readable description of the reason.
    pub fn message(&self) -> (r: &'static str)
        ensures
            r@ == allocation_message(*self),
    {
        match self {
            AllocationReason::ZeroSize => "allocation size must be greater than zero",
            AllocationReason::ExceedsMaxSize => "allocation size exceeds maximum supported size",
        }
    }
}

/// Category of an operating-system I/O failure, as reported by the platform layer.
#[derive(Debug, Clone, Copy, PartialEq, Eq, Structural)]
pub enum IoErrorKind {
    NotFound,
    PermissionDenied,
    ConnectionRefused,
    ConnectionReset,
    ConnectionAborted,
    NotConnected,
    BrokenPipe,
    WouldBlock,
    InvalidInput,
    TimedOut,
    UnexpectedEof,
    Other,
}

/// Communication scope derived from two process locations.
#[derive(Copy, Clone, Debug, PartialEq, Eq, Hash, Structural)]
pub enum CommunicationScope {
    /// Sender and peer are on the same host.
    Local,
    /// Sender and peer are on different hosts, or host identity is ambiguous.
    Remote,
}

/// Top-level error type of the library.
#[derive(Debug)]
pub enum LavaFlowError {
    /// Process name validation failed.
    InvalidProcessName { value: String, reason: ValidationReason },
    /// Channel id validation failed.
    InvalidChannelId { value: String, reason: ValidationReason },
    /// Hostname validation failed.
    InvalidHostname { value: String, reason: ValidationReason },
    /// Hostname detection through the operating system failed.
    HostnameDetection { detail: String },
    /// Memory allocation request failed validation.
    InvalidAllocationRequest { size: usize, reason: AllocationReason },
    /// A requested GPU device id is not known by the allocator.
    GpuDeviceNotFound { device_id: u32 },
    /// Interprocess handle kind is not supported for the requested operation.
    UnsupportedInterprocessHandle { kind: &'static str },
    /// GPU allocation was requested but no GPU backend is available.
    GpuBackendUnavailable,
    /// Vulkan backend operation failed.
    VulkanOperation { operation: &'static str, details: String },
    /// Internal allocator state lock was poisoned by a prior panic.
    AllocatorStatePoisoned { component: &'static str },
    /// Operating-system shared-memory operation failed.
    SharedMemoryOperation { operation: &'static str, kind: IoErrorKind, message: String },
    /// Channel metadata serialization or deserialization failed.
    ChannelMetadataCodec { operation: &'static str, detail: String },
    /// Requested channel metadata encoding is not implemented.
    UnsupportedMetadataEncoding { encoding: &'static str },
    /// Channel transport failed during a platform or protocol operation.
    ChannelTransportOperation { operation: &'static str, kind: IoErrorKind, message: String },
    /// Channel transport was disconnected before the operation completed.
    ChannelDisconnected,
    /// Blocking channel endpoint construction was cancelled before it completed.
    ChannelBuildCancelled { endpoint: &'static str },
    /// The requested communication scope is not implemented by the channel runtime.
    UnsupportedCommunicationScope { scope: CommunicationScope },
    /// Channel buffer kind is not supported by the selected transport.
    UnsupportedChannelBufferKind { kind: &'static str },
    /// Local peer authentication failed.
    ChannelAuthenticationFailed { reason: &'static str },
    /// The requested authentication mechanism is not available in this build.
    UnsupportedChannelAuthentication { mechanism: &'static str },
}

/// Standard result type of the library.
pub type Result<T> = core::result::Result<T, LavaFlowError>;

/// `e` is the transport error of a protocol violation during `op` described by `msg`.
pub open spec fn is_protocol_error(e: LavaFlowError, op: &str, msg: &str) -> bool {
    &&& e matches LavaFlowError::ChannelTransportOperation { operation, kind, message }
    &&& operation@ == op@
    &&& kind == IoErrorKind::InvalidInput
    &&& message@ == msg@
}

/// `e` is an authentication failure with the given reason.
pub open spec fn is_auth_failure(e: LavaFlowError, why: &str) -> bool {
    e matches LavaFlowError::ChannelAuthenticationFailed { reason } && reason@ == why@
}

/// Error for a protocol violation: an invalid-input transport error.
pub fn channel_protocol_error(operation: &'static str, message: &'static str) -> (e: LavaFlowError)
    ensures
        is_protocol_error(e, operation, message),
{
    LavaFlowError::ChannelTransportOperation {
        operation,
        kind: IoErrorKind::InvalidInput,
        message: crate::text::owned(message),
    }
}

/// I/O kinds that mean the peer went away.
pub open spec fn is_disconnect_kind(kind: IoErrorKind) -> bool {
    kind == IoErrorKind::BrokenPipe || kind == IoErrorKind::ConnectionAborted || kind
        == IoErrorKind::ConnectionReset || kind == IoErrorKind::NotConnected || kind
        == IoErrorKind::UnexpectedEof
}

/// Classifies a platform I/O failure: a vanished peer is a disconnect, anything else a
/// transport failure of `operation`.
pub fn channel_transport_error(operation: &'static str, kind: IoErrorKind, message: String) -> (e:
    LavaFlowError)
    ensures
        is_disconnect_kind(kind) ==> e is ChannelDisconnected,
        !is_disconnect_kind(kind) ==> (e matches LavaFlowError::ChannelTransportOperation {
            operation: o,
            kind: k,
            message: m,
        } && o == operation && k == kind && m == message),
{
    match kind {
        IoErrorKind::BrokenPipe | IoErrorKind::ConnectionAborted | IoErrorKind::ConnectionReset
        | IoErrorKind::NotConnected | IoErrorKind::UnexpectedEof => LavaFlowError::ChannelDisconnected,
        _ => LavaFlowError::ChannelTransportOperation { operation, kind, message },
    }
}

/// Authentication failure with a fixed reason.
pub fn authentication_failed(reason: &'static str) -> (e: LavaFlowError)
    ensures
        e == (LavaFlowError::ChannelAuthenticationFailed { reason }),
{
    LavaFlowError::ChannelAuthenticationFailed { reason }
}

/// Whether a failed connect attempt is a start-up race worth retrying: the listener does not
/// exist yet or refuses connections.
pub fn is_retryable_connect_failure(operation: &str, kind: IoErrorKind) -> (r: bool)
    ensures
        r == (operation@ == "connect"@ && (kind == IoErrorKind::NotFound || kind
            == IoErrorKind::ConnectionRefused)),
{
    let is_connect = crate::text::str_eq(operation, "connect");
    is_connect && (kind == IoErrorKind::NotFound || kind == IoErrorKind::ConnectionRefused)
}

/// A failed connect that is a start-up race: the listener is missing or refuses connections.
pub open spec fn spec_is_retryable(err: LavaFlowError) -> bool {
    err matches LavaFlowError::ChannelTransportOperation { operation, kind, .. } && operation@
        == "connect"@ && (kind == IoErrorKind::NotFound || kind == IoErrorKind::ConnectionRefused)
}

/// Whether an error returned by a connect attempt is a retryable start-up race.
pub fn is_retryable_connect_error(err: &LavaFlowError) -> (r: bool)
    ensures
        r == spec_is_retryable(*err),
{
    match err {
        LavaFlowError::ChannelTransportOperation { operation, kind, .. } => {
            is_retryable_connect_failure(operation, *kind)
        },
        _ => false,
    }
}

} // verus!
