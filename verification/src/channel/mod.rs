//! Channels: directional endpoints that carry payload frames with metadata.

use vstd::prelude::*;
use std::sync::atomic::{AtomicBool, Ordering};
use std::sync::Arc;
use crate::channel::local::auth::{AuthOptions, BootstrapOptions};
use crate::channel::local::wire::{Access, FrameHeader, ProtocolLimits, spec_header_size};
use crate::error::{is_protocol_error, channel_protocol_error, LavaFlowError, Result};
use crate::memory::cpu::MemoryBuffer as CpuBuffer;
use crate::memory::gpu::GpuMemoryBuffer;
use crate::types::{detect_scope, scope_of, ChannelId, CommunicationScope, ProcessLocation};

pub mod local;

verus! {

/// Metadata encoding of channel envelopes.
#[derive(Copy, Clone, Debug, PartialEq, Eq, Structural)]
pub enum MetadataEncoding {
    /// JSON metadata encoding.
    Json,
    /// CBOR metadata encoding; announced on the wire but not implemented.
    Cbor,
}

/// Wire byte of a metadata encoding.
pub open spec fn spec_encoding_byte(e: MetadataEncoding) -> u8 {
    match e {
        MetadataEncoding::Json => 0,
        MetadataEncoding::Cbor => 1,
    }
}

impl Default for MetadataEncoding {
    fn default() -> (r: Self)
        ensures
            r == MetadataEncoding::Json,
    {
        MetadataEncoding::Json
    }
}

impl MetadataEncoding {
    /// Returns the wire byte of the encoding.
    pub fn to_byte(self) -> (r: u8)
        ensures
            r == spec_encoding_byte(self),
    {
        match self {
            MetadataEncoding::Json => 0,
            MetadataEncoding::Cbor => 1,
        }
    }

    /// Decodes a wire byte; unknown bytes are a protocol error of the connection header.
    pub fn try_from_byte(value: u8) -> (r: Result<Self>)
        ensures
            r matches Ok(m) ==> spec_encoding_byte(m) == value,
            r is Err <==> value > 1,
            r matches Err(e) ==> is_protocol_error(e, "decode_connection_header", "unknown metadata encoding"),
    {
        match value {
            0 => Ok(MetadataEncoding::Json),
            1 => Ok(MetadataEncoding::Cbor),
            _ => Err(channel_protocol_error("decode_connection_header", "unknown metadata encoding")),
        }
    }
}

/// Observable receive behaviour of a receiver endpoint.
#[derive(Copy, Clone, Debug, PartialEq, Eq, Structural)]
pub enum ReceiveRepresentation {
    /// The receiver returns an externally shared buffer reference.
    ExternalShare,
    /// The receiver materializes the payload into an owned buffer.
    Materialized,
}

/// Payload exchanged by channels: a CPU or a GPU buffer.
#[derive(Debug)]
pub enum Frame {
    /// CPU-backed payload.
    Cpu(CpuBuffer),
    /// GPU-backed payload.
    Gpu(GpuMemoryBuffer),
}

impl Frame {
    /// Payload size of the frame.
    pub open spec fn spec_size(&self) -> nat {
        match self {
            Frame::Cpu(b) => b.contents().len(),
            Frame::Gpu(b) => b.contents().len(),
        }
    }

    /// Returns the payload size in bytes.
    pub fn size(&self) -> (r: usize)
        ensures
            r == self.spec_size(),
    {
        match self {
            Frame::Cpu(buffer) => buffer.size(),
            Frame::Gpu(buffer) => buffer.size(),
        }
    }

    /// Returns the CPU buffer when this payload is CPU-backed.
    pub fn into_cpu(self) -> (r: Option<CpuBuffer>)
        ensures
            self is Cpu <==> r is Some,
            r matches Some(b) ==> b == self->Cpu_0,
    {
        match self {
            Frame::Cpu(buffer) => Some(buffer),
            Frame::Gpu(_) => None,
        }
    }

    /// Returns the GPU buffer when this payload is GPU-backed.
    pub fn into_gpu(self) -> (r: Option<GpuMemoryBuffer>)
        ensures
            self is Gpu <==> r is Some,
            r matches Some(b) ==> b == self->Gpu_0,
    {
        match self {
            Frame::Cpu(_) => None,
            Frame::Gpu(buffer) => Some(buffer),
        }
    }

    /// The header that announces this frame on the wire.
    pub fn header(&self) -> (r: FrameHeader)
        ensures
            spec_header_size(r) == self.spec_size(),
            self is Cpu <==> r is Cpu,
            self matches Frame::Gpu(b) ==> r == (FrameHeader::Gpu {
                buffer_size: b.contents().len() as usize,
                device_id: b.device(),
            }),
    {
        match self {
            Frame::Cpu(buffer) => FrameHeader::Cpu { buffer_size: buffer.size() },
            Frame::Gpu(buffer) => FrameHeader::Gpu {
                buffer_size: buffer.size(),
                device_id: buffer.device_id(),
            },
        }
    }
}

impl From<CpuBuffer> for Frame {
    fn from(buffer: CpuBuffer) -> (r: Self) {
        Frame::Cpu(buffer)
    }
}

impl vstd::std_specs::convert::FromSpecImpl<CpuBuffer> for Frame {
    open spec fn obeys_from_spec() -> bool {
        true
    }

    open spec fn from_spec(v: CpuBuffer) -> Self {
        Frame::Cpu(v)
    }
}

impl From<GpuMemoryBuffer> for Frame {
    fn from(buffer: GpuMemoryBuffer) -> (r: Self) {
        Frame::Gpu(buffer)
    }
}

impl vstd::std_specs::convert::FromSpecImpl<GpuMemoryBuffer> for Frame {
    open spec fn obeys_from_spec() -> bool {
        true
    }

    open spec fn from_spec(v: GpuMemoryBuffer) -> Self {
        Frame::Gpu(v)
    }
}

/// Cooperative cancellation handle for blocking endpoint construction. Clones share one flag.
///
/// The flag is shared between threads, so nothing is stated of what `is_cancelled` returns.
#[derive(Clone, Debug)]
pub struct BuildCancel {
    cancelled: Arc<AtomicBool>,
}

impl BuildCancel {
    /// Creates a new non-cancelled handle.
    pub fn new() -> Self {
        BuildCancel { cancelled: Arc::new(AtomicBool::new(false)) }
    }

    /// Requests cancellation of any builder observing this handle or one of its clones.
    pub fn cancel(&self) {
        self.cancelled.store(true, Ordering::SeqCst);
    }

    /// Returns whether cancellation has been requested.
    pub fn is_cancelled(&self) -> bool {
        self.cancelled.load(Ordering::SeqCst)
    }
}

/// Delay between two accept polls of a sender that builds with a timeout or cancellation, in
/// milliseconds.
pub const ACCEPT_POLL_DELAY_MS: u64 = 10;

/// Delay between two connect attempts of a receiver that builds with a timeout or
/// cancellation, in milliseconds.
pub const CONNECT_RETRY_DELAY_MS: u64 = 10;

/// What a controlled build does with the flag it read: a cancelled build ends with
/// `ChannelBuildCancelled` for its endpoint, any other goes on.
pub fn cancelled_result(cancelled: bool, endpoint: &'static str) -> (r: Result<()>)
    ensures
        r is Err <==> cancelled,
        r matches Err(e) ==> e == (LavaFlowError::ChannelBuildCancelled { endpoint }),
{
    if cancelled {
        Err(LavaFlowError::ChannelBuildCancelled { endpoint })
    } else {
        Ok(())
    }
}

/// Checked before every attempt of a controlled build: a cancelled handle ends the build, as
/// [`cancelled_result`] decides from the flag read from the handle.
pub fn check_cancelled(cancel: Option<&BuildCancel>, endpoint: &'static str) -> (r: Result<()>)
    ensures
        cancel is None ==> r is Ok,
        r matches Err(e) ==> e == (LavaFlowError::ChannelBuildCancelled { endpoint }),
{
    match cancel {
        Some(c) => cancelled_result(c.is_cancelled(), endpoint),
        None => Ok(()),
    }
}

/// Whether a controlled build has run out of time: only with a timeout, once the elapsed time
/// reaches it. Times are in nanoseconds.
pub fn deadline_passed(elapsed: u128, timeout: Option<u128>) -> (r: bool)
    ensures
        r == (timeout matches Some(t) && elapsed >= t),
{
    match timeout {
        Some(t) => elapsed >= t,
        None => false,
    }
}

/// What a controlled receiver build does after a failed connect: a start-up race is retried
/// until the deadline, then reported as a connect timeout with `timeout_message`; any other
/// failure ends the build as it is. `Ok` means: wait and try again.
pub fn after_failed_connect(error: LavaFlowError, timed_out: bool, timeout_message: String) -> (r: Result<()>)
    ensures
        r is Ok <==> crate::error::spec_is_retryable(error) && !timed_out,
        !crate::error::spec_is_retryable(error) ==> (r matches Err(e) && e == error),
        crate::error::spec_is_retryable(error) && timed_out ==> (r matches Err(e) && e
            == (LavaFlowError::ChannelTransportOperation {
            operation: "connect",
            kind: crate::error::IoErrorKind::TimedOut,
            message: timeout_message,
        })),
{
    if crate::error::is_retryable_connect_error(&error) {
        if timed_out {
            Err(LavaFlowError::ChannelTransportOperation {
                operation: "connect",
                kind: crate::error::IoErrorKind::TimedOut,
                message: timeout_message,
            })
        } else {
            Ok(())
        }
    } else {
        Err(error)
    }
}

/// Error of a sender whose peer did not connect before the timeout.
pub fn accept_timeout_error(message: String) -> (e: LavaFlowError)
    ensures
        e == (LavaFlowError::ChannelTransportOperation {
            operation: "accept",
            kind: crate::error::IoErrorKind::TimedOut,
            message,
        }),
{
    LavaFlowError::ChannelTransportOperation {
        operation: "accept",
        kind: crate::error::IoErrorKind::TimedOut,
        message,
    }
}

/// Options shared by both endpoint builders.
pub struct BuilderOptions {
    channel_id: ChannelId,
    scope: CommunicationScope,
    local_max_payload_size: usize,
    local_max_metadata_size: usize,
    local_access: Access,
}

/// What the builder options hold.
pub ghost struct OptionsModel {
    pub channel: Seq<char>,
    pub scope: CommunicationScope,
    pub max_payload: usize,
    pub max_metadata: usize,
    pub access: Access,
}

impl BuilderOptions {
    /// The model of the options.
    pub closed spec fn model(&self) -> OptionsModel {
        OptionsModel {
            channel: self.channel_id@,
            scope: self.scope,
            max_payload: self.local_max_payload_size,
            max_metadata: self.local_max_metadata_size,
            access: self.local_access,
        }
    }

    /// Options for a channel in a scope, with default limits and access.
    pub fn new(channel_id: ChannelId, scope: CommunicationScope) -> (r: Self)
        ensures
            r.model() == (OptionsModel {
                channel: channel_id@,
                scope,
                max_payload: 0,
                max_metadata: 0,
                access: Access::CurrentSession,
            }),
    {
        BuilderOptions {
            channel_id,
            scope,
            local_max_payload_size: 0,
            local_max_metadata_size: 0,
            local_access: Access::CurrentSession,
        }
    }

    /// Sets the local payload cap; `0` keeps the default.
    pub fn with_local_max_payload_size(self, max_payload_size: usize) -> (r: Self)
        ensures
            r.model() == (OptionsModel { max_payload: max_payload_size, ..self.model() }),
    {
        BuilderOptions { local_max_payload_size: max_payload_size, ..self }
    }

    /// Sets the local metadata cap; `0` keeps the default.
    pub fn with_local_max_metadata_size(self, max_metadata_size: usize) -> (r: Self)
        ensures
            r.model() == (OptionsModel { max_metadata: max_metadata_size, ..self.model() }),
    {
        BuilderOptions { local_max_metadata_size: max_metadata_size, ..self }
    }

    /// Sets the local access policy.
    pub fn with_local_access(self, access: Access) -> (r: Self)
        ensures
            r.model() == (OptionsModel { access, ..self.model() }),
    {
        BuilderOptions { local_access: access, ..self }
    }

    /// The protocol limits the options select.
    pub fn local_limits(&self) -> (r: ProtocolLimits)
        ensures
            r == ProtocolLimits::spec_with_max_sizes(
                self.model().max_payload,
                self.model().max_metadata,
            ),
    {
        ProtocolLimits::with_max_sizes(self.local_max_payload_size, self.local_max_metadata_size)
    }

    /// The access policy the options select.
    pub fn local_access(&self) -> (r: Access)
        ensures
            r == self.model().access,
    {
        self.local_access
    }
}

/// Everything a local endpoint needs to start once its scope is known to be local.
pub struct LocalEndpointPlan {
    pub limits: ProtocolLimits,
    pub bootstrap: BootstrapOptions,
}

/// The plan for building a local endpoint from the options; remote scope is not supported.
pub open spec fn plan_ok(options: OptionsModel, plan: LocalEndpointPlan) -> bool {
    &&& plan.limits == ProtocolLimits::spec_with_max_sizes(options.max_payload, options.max_metadata)
    &&& plan.bootstrap.channel_id@ == options.channel
    &&& plan.bootstrap.access == options.access
    &&& plan.bootstrap.auth.secret_setting() is None
    &&& plan.bootstrap.auth.expected_peer() is None
}

fn plan_local(options: BuilderOptions) -> (r: Result<LocalEndpointPlan>)
    ensures
        r is Ok <==> options.model().scope == CommunicationScope::Local,
        r matches Ok(plan) ==> plan_ok(options.model(), plan),
        r matches Err(e) ==> e == (LavaFlowError::UnsupportedCommunicationScope {
            scope: options.model().scope,
        }),
{
    match options.scope {
        CommunicationScope::Local => {
            let limits = options.local_limits();
            let access = options.local_access();
            let bootstrap = BootstrapOptions::new(options.channel_id, access, AuthOptions::default());
            Ok(LocalEndpointPlan { limits, bootstrap })
        },
        scope => Err(LavaFlowError::UnsupportedCommunicationScope { scope }),
    }
}

/// Entry point for constructing directional channel endpoints.
#[derive(Debug)]
pub struct Builder;

/// Builder for sender endpoints.
pub struct SenderBuilder {
    options: BuilderOptions,
    metadata_encoding: MetadataEncoding,
}

/// Builder for receiver endpoints.
pub struct ReceiverBuilder {
    options: BuilderOptions,
}

impl Builder {
    /// Starts a sender builder for a channel; the scope comes from the two locations.
    pub fn sender(channel_id: ChannelId, my_location: ProcessLocation, peer_location: ProcessLocation) -> (r:
        SenderBuilder)
        ensures
            r.options().model() == (OptionsModel {
                channel: channel_id@,
                scope: scope_of(my_location.host(), peer_location.host()),
                max_payload: 0,
                max_metadata: 0,
                access: Access::CurrentSession,
            }),
            r.encoding() == MetadataEncoding::Json,
    {
        let scope = detect_scope(&my_location, &peer_location);
        SenderBuilder {
            options: BuilderOptions::new(channel_id, scope),
            metadata_encoding: MetadataEncoding::Json,
        }
    }

    /// Starts a receiver builder for a channel; the scope comes from the two locations.
    pub fn receiver(channel_id: ChannelId, my_location: ProcessLocation, peer_location: ProcessLocation) -> (r:
        ReceiverBuilder)
        ensures
            r.options().model() == (OptionsModel {
                channel: channel_id@,
                scope: scope_of(my_location.host(), peer_location.host()),
                max_payload: 0,
                max_metadata: 0,
                access: Access::CurrentSession,
            }),
    {
        let scope = detect_scope(&my_location, &peer_location);
        ReceiverBuilder { options: BuilderOptions::new(channel_id, scope) }
    }

    /// Starts a local sender builder: both peers are placed at this host's name.
    pub fn local_sender(channel_id: ChannelId) -> (r: Result<SenderBuilder>)
        ensures
            r matches Ok(b) ==> b.options().model() == (OptionsModel {
                channel: channel_id@,
                scope: CommunicationScope::Local,
                max_payload: 0,
                max_metadata: 0,
                access: Access::CurrentSession,
            }) && b.encoding() == MetadataEncoding::Json,
            r matches Err(e) ==> crate::types::is_hostname_detection_failure(e),
    {
        let location = match ProcessLocation::from_hostname() {
            Ok(location) => location,
            Err(e) => {
                return Err(e);
            },
        };
        let peer = location.clone();
        Ok(Self::sender(channel_id, location, peer))
    }

    /// Starts a local receiver builder: both peers are placed at this host's name.
    pub fn local_receiver(channel_id: ChannelId) -> (r: Result<ReceiverBuilder>)
        ensures
            r matches Ok(b) ==> b.options().model() == (OptionsModel {
                channel: channel_id@,
                scope: CommunicationScope::Local,
                max_payload: 0,
                max_metadata: 0,
                access: Access::CurrentSession,
            }),
            r matches Err(e) ==> crate::types::is_hostname_detection_failure(e),
    {
        let location = match ProcessLocation::from_hostname() {
            Ok(location) => location,
            Err(e) => {
                return Err(e);
            },
        };
        let peer = location.clone();
        Ok(Self::receiver(channel_id, location, peer))
    }
}

impl SenderBuilder {
    /// The builder's options.
    pub closed spec fn options(&self) -> BuilderOptions {
        self.options
    }

    /// The metadata encoding for outbound messages.
    pub closed spec fn encoding(&self) -> MetadataEncoding {
        self.metadata_encoding
    }

    /// Sets the metadata encoding of outbound messages.
    pub fn with_metadata_encoding(self, encoding: MetadataEncoding) -> (r: Self)
        ensures
            r.options().model() == self.options().model(),
            r.encoding() == encoding,
    {
        SenderBuilder { options: self.options, metadata_encoding: encoding }
    }

    /// Overrides the local maximum payload size; `0` keeps the built-in default.
    pub fn with_local_max_payload_size(self, max_payload_size: usize) -> (r: Self)
        ensures
            r.options().model() == (OptionsModel { max_payload: max_payload_size, ..self.options().model() }),
            r.encoding() == self.encoding(),
    {
        SenderBuilder {
            options: self.options.with_local_max_payload_size(max_payload_size),
            metadata_encoding: self.metadata_encoding,
        }
    }

    /// Overrides the local maximum metadata size; `0` keeps the built-in default.
    pub fn with_local_max_metadata_size(self, max_metadata_size: usize) -> (r: Self)
        ensures
            r.options().model() == (OptionsModel { max_metadata: max_metadata_size, ..self.options().model() }),
            r.encoding() == self.encoding(),
    {
        SenderBuilder {
            options: self.options.with_local_max_metadata_size(max_metadata_size),
            metadata_encoding: self.metadata_encoding,
        }
    }

    /// Restricts local IPC to the current logon session or user (the default).
    pub fn with_current_session_local_access(self) -> (r: Self)
        ensures
            r.options().model() == (OptionsModel { access: Access::CurrentSession, ..self.options().model() }),
            r.encoding() == self.encoding(),
    {
        SenderBuilder {
            options: self.options.with_local_access(Access::CurrentSession),
            metadata_encoding: self.metadata_encoding,
        }
    }

    /// Allows authenticated local users to connect.
    pub fn with_authenticated_users_local_access(self) -> (r: Self)
        ensures
            r.options().model() == (OptionsModel { access: Access::AuthenticatedUsers, ..self.options().model() }),
            r.encoding() == self.encoding(),
    {
        SenderBuilder {
            options: self.options.with_local_access(Access::AuthenticatedUsers),
            metadata_encoding: self.metadata_encoding,
        }
    }

    /// What building this sender takes: the limits and bootstrap options of a local endpoint,
    /// and the metadata encoding. Remote scope is refused.
    pub fn plan(self) -> (r: Result<(LocalEndpointPlan, MetadataEncoding)>)
        ensures
            r is Ok <==> self.options().model().scope == CommunicationScope::Local,
            r matches Ok((plan, encoding)) ==> plan_ok(self.options().model(), plan) && encoding
                == self.encoding(),
            r matches Err(e) ==> e == (LavaFlowError::UnsupportedCommunicationScope {
                scope: self.options().model().scope,
            }),
    {
        let encoding = self.metadata_encoding;
        let plan = plan_local(self.options)?;
        Ok((plan, encoding))
    }
}

impl ReceiverBuilder {
    /// The builder's options.
    pub closed spec fn options(&self) -> BuilderOptions {
        self.options
    }

    /// Overrides the local maximum payload size; `0` keeps the built-in default.
    pub fn with_local_max_payload_size(self, max_payload_size: usize) -> (r: Self)
        ensures
            r.options().model() == (OptionsModel { max_payload: max_payload_size, ..self.options().model() }),
    {
        ReceiverBuilder { options: self.options.with_local_max_payload_size(max_payload_size) }
    }

    /// Overrides the local maximum metadata size; `0` keeps the built-in default.
    pub fn with_local_max_metadata_size(self, max_metadata_size: usize) -> (r: Self)
        ensures
            r.options().model() == (OptionsModel { max_metadata: max_metadata_size, ..self.options().model() }),
    {
        ReceiverBuilder { options: self.options.with_local_max_metadata_size(max_metadata_size) }
    }

    /// Restricts local IPC to the current logon session or user (the default).
    pub fn with_current_session_local_access(self) -> (r: Self)
        ensures
            r.options().model() == (OptionsModel { access: Access::CurrentSession, ..self.options().model() }),
    {
        ReceiverBuilder { options: self.options.with_local_access(Access::CurrentSession) }
    }

    /// Allows authenticated local users to connect.
    pub fn with_authenticated_users_local_access(self) -> (r: Self)
        ensures
            r.options().model() == (OptionsModel { access: Access::AuthenticatedUsers, ..self.options().model() }),
    {
        ReceiverBuilder { options: self.options.with_local_access(Access::AuthenticatedUsers) }
    }

    /// What building this receiver takes: the limits and bootstrap options of a local
    /// endpoint. Remote scope is refused.
    pub fn plan(self) -> (r: Result<LocalEndpointPlan>)
        ensures
            r is Ok <==> self.options().model().scope == CommunicationScope::Local,
            r matches Ok(plan) ==> plan_ok(self.options().model(), plan),
            r matches Err(e) ==> e == (LavaFlowError::UnsupportedCommunicationScope {
                scope: self.options().model().scope,
            }),
    {
        plan_local(self.options)
    }
}

} // verus!
