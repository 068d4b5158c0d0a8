//! Byte layout of the local channel protocol: control tags, the connection header, frame
//! headers and message envelopes, with the limits a peer enforces.

use vstd::prelude::*;
use vstd::bytes::{
    spec_u32_from_le_bytes, spec_u32_to_le_bytes, spec_u64_from_le_bytes, spec_u64_to_le_bytes,
};
use crate::channel::{MetadataEncoding, spec_encoding_byte};
use crate::error::{is_protocol_error, channel_protocol_error, LavaFlowError, Result};

verus! {

/// Version byte of the local protocol.
pub const LOCAL_PROTOCOL_VERSION: u8 = 1;

/// Largest payload accepted when no cap is configured.
pub const DEFAULT_MAX_LOCAL_CHANNEL_PAYLOAD_SIZE: usize = 1073741824;

/// Largest metadata accepted when no cap is configured.
pub const DEFAULT_MAX_LOCAL_CHANNEL_METADATA_SIZE: usize = 1048576;

/// Local IPC peer access policy.
#[derive(Copy, Clone, Debug, PartialEq, Eq, Structural)]
pub enum Access {
    /// Restrict local IPC to the current logon session or user.
    CurrentSession,
    /// Allow authenticated local OS users to connect.
    AuthenticatedUsers,
}

/// Wire byte of an access policy.
pub open spec fn spec_access_byte(a: Access) -> u8 {
    match a {
        Access::CurrentSession => 1,
        Access::AuthenticatedUsers => 2,
    }
}

impl Default for Access {
    fn default() -> (r: Self)
        ensures
            r == Access::CurrentSession,
    {
        Access::CurrentSession
    }
}

impl Access {
    /// Returns the wire byte of the policy.
    pub fn to_byte(self) -> (r: u8)
        ensures
            r == spec_access_byte(self),
    {
        match self {
            Access::CurrentSession => 1,
            Access::AuthenticatedUsers => 2,
        }
    }

    /// Decodes a wire byte; unknown bytes are a protocol error.
    pub fn try_from_byte(value: u8) -> (r: Result<Self>)
        ensures
            r matches Ok(a) ==> spec_access_byte(a) == value,
            r is Err <==> !(value == 1 || value == 2),
            r matches Err(e) ==> is_protocol_error(e, "decode_local_access", "unknown local access policy"),
    {
        match value {
            1 => Ok(Access::CurrentSession),
            2 => Ok(Access::AuthenticatedUsers),
            _ => Err(channel_protocol_error("decode_local_access", "unknown local access policy")),
        }
    }
}

/// Peer authentication mode announced in the connection header.
#[derive(Copy, Clone, Debug, PartialEq, Eq, Structural)]
pub enum AuthMode {
    /// No authentication beyond the transport's own access control.
    NoAuth,
    /// Mutual proof of a shared secret with HMAC-SHA256.
    SharedSecretHmacSha256,
}

/// Wire byte of an authentication mode.
pub open spec fn spec_auth_mode_byte(m: AuthMode) -> u8 {
    match m {
        AuthMode::NoAuth => 0,
        AuthMode::SharedSecretHmacSha256 => 1,
    }
}

impl AuthMode {
    /// Returns the wire byte of the mode.
    pub fn to_byte(self) -> (r: u8)
        ensures
            r == spec_auth_mode_byte(self),
    {
        match self {
            AuthMode::NoAuth => 0,
            AuthMode::SharedSecretHmacSha256 => 1,
        }
    }

    /// Decodes a wire byte; unknown bytes are a protocol error.
    pub fn try_from_byte(value: u8) -> (r: Result<Self>)
        ensures
            r matches Ok(m) ==> spec_auth_mode_byte(m) == value,
            r is Err <==> value > 1,
            r matches Err(e) ==> is_protocol_error(e, "decode_auth_mode", "unknown authentication mode"),
    {
        match value {
            0 => Ok(AuthMode::NoAuth),
            1 => Ok(AuthMode::SharedSecretHmacSha256),
            _ => Err(channel_protocol_error("decode_auth_mode", "unknown authentication mode")),
        }
    }
}

/// Control tag that opens every protocol unit.
#[derive(Copy, Clone, Debug, PartialEq, Eq, Structural)]
pub enum ProtocolTag {
    ConnectionHeader,
    MessageEnvelope,
    ImportOk,
    ImportFailed,
    ConnectionOk,
    AuthChallenge,
    AuthResponse,
    AuthOk,
    AuthFailed,
}

/// Wire byte of a tag.
pub open spec fn spec_tag_byte(t: ProtocolTag) -> u8 {
    match t {
        ProtocolTag::ConnectionHeader => 1,
        ProtocolTag::MessageEnvelope => 2,
        ProtocolTag::ImportOk => 3,
        ProtocolTag::ImportFailed => 4,
        ProtocolTag::ConnectionOk => 5,
        ProtocolTag::AuthChallenge => 6,
        ProtocolTag::AuthResponse => 7,
        ProtocolTag::AuthOk => 8,
        ProtocolTag::AuthFailed => 9,
    }
}

/// The tag a byte encodes, if any.
pub open spec fn spec_tag_of(b: u8) -> Option<ProtocolTag> {
    if b == 1 {
        Some(ProtocolTag::ConnectionHeader)
    } else if b == 2 {
        Some(ProtocolTag::MessageEnvelope)
    } else if b == 3 {
        Some(ProtocolTag::ImportOk)
    } else if b == 4 {
        Some(ProtocolTag::ImportFailed)
    } else if b == 5 {
        Some(ProtocolTag::ConnectionOk)
    } else if b == 6 {
        Some(ProtocolTag::AuthChallenge)
    } else if b == 7 {
        Some(ProtocolTag::AuthResponse)
    } else if b == 8 {
        Some(ProtocolTag::AuthOk)
    } else if b == 9 {
        Some(ProtocolTag::AuthFailed)
    } else {
        None
    }
}

impl ProtocolTag {
    /// Returns the wire byte of the tag.
    pub fn to_byte(self) -> (r: u8)
        ensures
            r == spec_tag_byte(self),
    {
        match self {
            ProtocolTag::ConnectionHeader => 1,
            ProtocolTag::MessageEnvelope => 2,
            ProtocolTag::ImportOk => 3,
            ProtocolTag::ImportFailed => 4,
            ProtocolTag::ConnectionOk => 5,
            ProtocolTag::AuthChallenge => 6,
            ProtocolTag::AuthResponse => 7,
            ProtocolTag::AuthOk => 8,
            ProtocolTag::AuthFailed => 9,
        }
    }

    /// Decodes a wire byte; unknown bytes are a protocol error.
    pub fn try_from_byte(value: u8) -> (r: Result<Self>)
        ensures
            r matches Ok(t) ==> spec_tag_of(value) == Some(t),
            r is Err <==> spec_tag_of(value) is None,
            r matches Err(e) ==> is_protocol_error(e, "decode_protocol_tag", "unknown protocol tag"),
    {
        match value {
            1 => Ok(ProtocolTag::ConnectionHeader),
            2 => Ok(ProtocolTag::MessageEnvelope),
            3 => Ok(ProtocolTag::ImportOk),
            4 => Ok(ProtocolTag::ImportFailed),
            5 => Ok(ProtocolTag::ConnectionOk),
            6 => Ok(ProtocolTag::AuthChallenge),
            7 => Ok(ProtocolTag::AuthResponse),
            8 => Ok(ProtocolTag::AuthOk),
            9 => Ok(ProtocolTag::AuthFailed),
            _ => Err(channel_protocol_error("decode_protocol_tag", "unknown protocol tag")),
        }
    }

    /// Decodes a tag read during `operation`; an unknown byte is reported against that
    /// operation.
    pub fn read_during(value: u8, operation: &'static str) -> (r: Result<Self>)
        ensures
            r matches Ok(t) ==> spec_tag_of(value) == Some(t),
            r is Err <==> spec_tag_of(value) is None,
            r matches Err(e) ==> is_protocol_error(e, operation, "unknown protocol tag"),
    {
        match Self::try_from_byte(value) {
            Ok(tag) => Ok(tag),
            Err(_) => Err(channel_protocol_error(operation, "unknown protocol tag")),
        }
    }
}

/// Every code the protocol writes names one value: the byte of a tag decodes to that tag, and
/// two access policies, authentication modes, frame kinds or metadata encodings with the same
/// byte are the same. With the decoders' contracts, decoding what `to_byte` wrote gives the
/// value back.
pub proof fn lemma_wire_codes_round_trip(
    t: ProtocolTag,
    a: Access,
    b: Access,
    m: AuthMode,
    n: AuthMode,
    k: FrameKind,
    l: FrameKind,
    e: crate::channel::MetadataEncoding,
    f: crate::channel::MetadataEncoding,
)
    ensures
        spec_tag_of(spec_tag_byte(t)) == Some(t),
        spec_access_byte(a) == spec_access_byte(b) ==> a == b,
        spec_auth_mode_byte(m) == spec_auth_mode_byte(n) ==> m == n,
        spec_frame_kind_byte(k) == spec_frame_kind_byte(l) ==> k == l,
        crate::channel::spec_encoding_byte(e) == crate::channel::spec_encoding_byte(f) ==> e == f,
{
}

/// Per-connection caps on payload and metadata sizes.
#[derive(Copy, Clone, Debug, PartialEq, Eq, Structural)]
pub struct ProtocolLimits {
    max_payload_size: usize,
    max_metadata_size: usize,
}

impl Default for ProtocolLimits {
    fn default() -> (r: Self)
        ensures
            r.payload_cap() == DEFAULT_MAX_LOCAL_CHANNEL_PAYLOAD_SIZE,
            r.metadata_cap() == DEFAULT_MAX_LOCAL_CHANNEL_METADATA_SIZE,
    {
        ProtocolLimits {
            max_payload_size: DEFAULT_MAX_LOCAL_CHANNEL_PAYLOAD_SIZE,
            max_metadata_size: DEFAULT_MAX_LOCAL_CHANNEL_METADATA_SIZE,
        }
    }
}

impl ProtocolLimits {
    /// The payload cap.
    pub closed spec fn payload_cap(self) -> usize {
        self.max_payload_size
    }

    /// The metadata cap.
    pub closed spec fn metadata_cap(self) -> usize {
        self.max_metadata_size
    }

    /// Limits with explicit caps; `0` for either cap selects its built-in default.
    pub closed spec fn spec_with_max_sizes(max_payload_size: usize, max_metadata_size: usize) -> Self {
        ProtocolLimits {
            max_payload_size: if max_payload_size == 0 {
                DEFAULT_MAX_LOCAL_CHANNEL_PAYLOAD_SIZE
            } else {
                max_payload_size
            },
            max_metadata_size: if max_metadata_size == 0 {
                DEFAULT_MAX_LOCAL_CHANNEL_METADATA_SIZE
            } else {
                max_metadata_size
            },
        }
    }

    /// The caps of limits made with explicit sizes: each size, or its built-in default where
    /// the size is `0`.
    pub proof fn lemma_with_max_sizes_caps(max_payload_size: usize, max_metadata_size: usize)
        ensures
            Self::spec_with_max_sizes(max_payload_size, max_metadata_size).payload_cap() == (if max_payload_size
                == 0 {
                DEFAULT_MAX_LOCAL_CHANNEL_PAYLOAD_SIZE
            } else {
                max_payload_size
            }),
            Self::spec_with_max_sizes(max_payload_size, max_metadata_size).metadata_cap() == (if max_metadata_size
                == 0 {
                DEFAULT_MAX_LOCAL_CHANNEL_METADATA_SIZE
            } else {
                max_metadata_size
            }),
    {
    }

    /// Creates limits with explicit caps; `0` for either cap selects its built-in default.
    pub fn with_max_sizes(max_payload_size: usize, max_metadata_size: usize) -> (r: Self)
        ensures
            r == Self::spec_with_max_sizes(max_payload_size, max_metadata_size),
            r.payload_cap() == (if max_payload_size == 0 {
                DEFAULT_MAX_LOCAL_CHANNEL_PAYLOAD_SIZE
            } else {
                max_payload_size
            }),
            r.metadata_cap() == (if max_metadata_size == 0 {
                DEFAULT_MAX_LOCAL_CHANNEL_METADATA_SIZE
            } else {
                max_metadata_size
            }),
    {
        ProtocolLimits {
            max_payload_size: if max_payload_size == 0 {
                DEFAULT_MAX_LOCAL_CHANNEL_PAYLOAD_SIZE
            } else {
                max_payload_size
            },
            max_metadata_size: if max_metadata_size == 0 {
                DEFAULT_MAX_LOCAL_CHANNEL_METADATA_SIZE
            } else {
                max_metadata_size
            },
        }
    }

    /// Returns the payload cap in bytes.
    pub fn max_payload_size(&self) -> (r: usize)
        ensures
            r == self.payload_cap(),
    {
        self.max_payload_size
    }

    /// Returns the metadata cap in bytes.
    pub fn max_metadata_size(&self) -> (r: usize)
        ensures
            r == self.metadata_cap(),
    {
        self.max_metadata_size
    }

    /// Checks an outgoing payload size against the cap.
    pub fn validate_outbound_payload_size(&self, payload_size: usize) -> (r: Result<()>)
        ensures
            r is Ok <==> payload_size <= self.payload_cap(),
            r matches Err(e) ==> is_protocol_error(
                e,
                "write_message_envelope",
                "payload size exceeds configured local channel maximum",
            ),
    {
        if payload_size > self.max_payload_size {
            return Err(
                channel_protocol_error(
                    "write_message_envelope",
                    "payload size exceeds configured local channel maximum",
                ),
            );
        }
        Ok(())
    }

    /// Checks an outgoing metadata length against the cap.
    pub fn validate_outbound_metadata_len(&self, metadata_len: usize) -> (r: Result<()>)
        ensures
            r is Ok <==> metadata_len <= self.metadata_cap(),
            r matches Err(e) ==> is_protocol_error(
                e,
                "write_message_envelope",
                "metadata length exceeds configured local channel maximum",
            ),
    {
        if metadata_len > self.max_metadata_size {
            return Err(
                channel_protocol_error(
                    "write_message_envelope",
                    "metadata length exceeds configured local channel maximum",
                ),
            );
        }
        Ok(())
    }

    /// Checks an incoming payload size against the cap.
    pub fn validate_inbound_payload_size(&self, payload_size: usize) -> (r: Result<()>)
        ensures
            r is Ok <==> payload_size <= self.payload_cap(),
            r matches Err(e) ==> is_protocol_error(
                e,
                "read_message_envelope",
                "payload size exceeds configured local channel maximum",
            ),
    {
        if payload_size > self.max_payload_size {
            return Err(
                channel_protocol_error(
                    "read_message_envelope",
                    "payload size exceeds configured local channel maximum",
                ),
            );
        }
        Ok(())
    }

    /// Checks an incoming metadata length against the cap.
    pub fn validate_inbound_metadata_len(&self, metadata_len: usize) -> (r: Result<()>)
        ensures
            r is Ok <==> metadata_len <= self.metadata_cap(),
            r matches Err(e) ==> is_protocol_error(
                e,
                "read_message_envelope",
                "metadata length exceeds configured local channel maximum",
            ),
    {
        if metadata_len > self.max_metadata_size {
            return Err(
                channel_protocol_error(
                    "read_message_envelope",
                    "metadata length exceeds configured local channel maximum",
                ),
            );
        }
        Ok(())
    }
}

/// Header the sender writes first on every connection.
#[derive(Copy, Clone, Debug, PartialEq, Eq, Structural)]
pub struct ConnectionHeader {
    pub encoding: MetadataEncoding,
    pub access: Access,
    pub auth_mode: AuthMode,
}

/// Bytes of a connection header on the wire: tag, version, encoding, access, mode.
pub open spec fn spec_connection_header_bytes(h: ConnectionHeader) -> Seq<u8> {
    seq![
        spec_tag_byte(ProtocolTag::ConnectionHeader),
        LOCAL_PROTOCOL_VERSION,
        spec_encoding_byte(h.encoding),
        spec_access_byte(h.access),
        spec_auth_mode_byte(h.auth_mode),
    ]
}

/// The header that the four bytes after the tag encode, or why they encode none, in the order
/// the receiver checks them.
pub open spec fn spec_connection_header_body(body: Seq<u8>) -> core::result::Result<
    ConnectionHeader,
    (&'static str, &'static str),
> {
    if body[0] != LOCAL_PROTOCOL_VERSION {
        Err(("read_connection_header", "unsupported local protocol version"))
    } else if body[1] > 1 {
        Err(("decode_connection_header", "unknown metadata encoding"))
    } else if !(body[2] == 1 || body[2] == 2) {
        Err(("decode_local_access", "unknown local access policy"))
    } else if body[3] > 1 {
        Err(("decode_auth_mode", "unknown authentication mode"))
    } else {
        Ok(
            ConnectionHeader {
                encoding: if body[1] == 0 {
                    MetadataEncoding::Json
                } else {
                    MetadataEncoding::Cbor
                },
                access: if body[2] == 1 {
                    Access::CurrentSession
                } else {
                    Access::AuthenticatedUsers
                },
                auth_mode: if body[3] == 0 {
                    AuthMode::NoAuth
                } else {
                    AuthMode::SharedSecretHmacSha256
                },
            },
        )
    }
}

/// `r` is the result the spec gives, with errors as protocol errors.
pub open spec fn matches_decode<T>(
    r: Result<T>,
    s: core::result::Result<T, (&'static str, &'static str)>,
) -> bool {
    match s {
        Ok(v) => r == Ok::<T, LavaFlowError>(v),
        Err((op, msg)) => r matches Err(e) && is_protocol_error(e, op, msg),
    }
}

impl ConnectionHeader {
    /// Encodes the header with its tag.
    pub fn to_bytes(self) -> (r: [u8; 5])
        ensures
            r@ == spec_connection_header_bytes(self),
    {
        let bytes = [
            ProtocolTag::ConnectionHeader.to_byte(),
            LOCAL_PROTOCOL_VERSION,
            self.encoding.to_byte(),
            self.access.to_byte(),
            self.auth_mode.to_byte(),
        ];
        assert(bytes@ =~= spec_connection_header_bytes(self));
        bytes
    }

    /// Checks the tag that opens a connection header.
    pub fn check_tag(tag: u8) -> (r: Result<()>)
        ensures
            r is Ok <==> tag == spec_tag_byte(ProtocolTag::ConnectionHeader),
            r matches Err(e) ==> (spec_tag_of(tag) is None ==> is_protocol_error(
                e,
                "read_connection_header",
                "unknown protocol tag",
            )) && (spec_tag_of(tag) is Some ==> is_protocol_error(
                e,
                "read_connection_header",
                "unexpected protocol tag",
            )),
    {
        let tag = ProtocolTag::read_during(tag, "read_connection_header")?;
        match tag {
            ProtocolTag::ConnectionHeader => Ok(()),
            _ => Err(channel_protocol_error("read_connection_header", "unexpected protocol tag")),
        }
    }

    /// Decodes the four bytes that follow the tag: version, encoding, access and mode.
    pub fn from_body(body: &[u8; 4]) -> (r: Result<Self>)
        ensures
            matches_decode(r, spec_connection_header_body(body@)),
    {
        if body[0] != LOCAL_PROTOCOL_VERSION {
            return Err(
                channel_protocol_error("read_connection_header", "unsupported local protocol version"),
            );
        }
        let encoding = MetadataEncoding::try_from_byte(body[1])?;
        let access = Access::try_from_byte(body[2])?;
        let auth_mode = AuthMode::try_from_byte(body[3])?;
        Ok(ConnectionHeader { encoding, access, auth_mode })
    }
}

/// Decoding the bytes of a connection header gives the header back.
pub proof fn lemma_connection_header_round_trip(h: ConnectionHeader)
    ensures
        spec_connection_header_bytes(h)[0] == spec_tag_byte(ProtocolTag::ConnectionHeader),
        spec_connection_header_body(spec_connection_header_bytes(h).subrange(1, 5)) == Ok::<
            ConnectionHeader,
            (&'static str, &'static str),
        >(h),
{
    let body = spec_connection_header_bytes(h).subrange(1, 5);
    assert(body[1] == spec_encoding_byte(h.encoding));
    assert(body[2] == spec_access_byte(h.access));
    assert(body[3] == spec_auth_mode_byte(h.auth_mode));
}

/// Kind of payload buffer a frame header announces.
#[derive(Copy, Clone, Debug, PartialEq, Eq, Structural)]
pub enum FrameKind {
    Cpu,
    Gpu,
}

/// Wire byte of a frame kind.
pub open spec fn spec_frame_kind_byte(k: FrameKind) -> u8 {
    match k {
        FrameKind::Cpu => 1,
        FrameKind::Gpu => 2,
    }
}

impl FrameKind {
    /// Returns the wire byte of the kind.
    pub fn to_byte(self) -> (r: u8)
        ensures
            r == spec_frame_kind_byte(self),
    {
        match self {
            FrameKind::Cpu => 1,
            FrameKind::Gpu => 2,
        }
    }

    /// Decodes a wire byte; unknown bytes are a protocol error.
    pub fn try_from_byte(value: u8) -> (r: Result<Self>)
        ensures
            r matches Ok(k) ==> spec_frame_kind_byte(k) == value,
            r is Err <==> !(value == 1 || value == 2),
            r matches Err(e) ==> is_protocol_error(e, "decode_frame_kind", "unknown frame kind"),
    {
        match value {
            1 => Ok(FrameKind::Cpu),
            2 => Ok(FrameKind::Gpu),
            _ => Err(channel_protocol_error("decode_frame_kind", "unknown frame kind")),
        }
    }
}

/// Description of the payload buffer carried by a message.
#[derive(Copy, Clone, Debug, PartialEq, Eq, Structural)]
pub enum FrameHeader {
    Cpu { buffer_size: usize },
    Gpu { buffer_size: usize, device_id: u32 },
}

/// Kind of a frame header.
pub open spec fn spec_header_kind(h: FrameHeader) -> FrameKind {
    match h {
        FrameHeader::Cpu { .. } => FrameKind::Cpu,
        FrameHeader::Gpu { .. } => FrameKind::Gpu,
    }
}

/// Payload size of a frame header.
pub open spec fn spec_header_size(h: FrameHeader) -> usize {
    match h {
        FrameHeader::Cpu { buffer_size } => buffer_size,
        FrameHeader::Gpu { buffer_size, .. } => buffer_size,
    }
}

/// Bytes of a frame header: kind, size as 8 little-endian bytes, and for GPU frames the device
/// id as 4 little-endian bytes.
pub open spec fn spec_frame_header_bytes(h: FrameHeader) -> Seq<u8> {
    let head = seq![spec_frame_kind_byte(spec_header_kind(h))] + spec_u64_to_le_bytes(
        spec_header_size(h) as u64,
    );
    match h {
        FrameHeader::Cpu { .. } => head,
        FrameHeader::Gpu { device_id, .. } => head + spec_u32_to_le_bytes(device_id),
    }
}

/// The payload size that eight little-endian bytes announce, or why it is refused.
pub open spec fn spec_frame_size(bytes: Seq<u8>, limits: ProtocolLimits) -> core::result::Result<
    usize,
    (&'static str, &'static str),
> {
    let v = spec_u64_from_le_bytes(bytes);
    if v > usize::MAX {
        Err(("read_message_envelope", "buffer size overflow"))
    } else if v > limits.payload_cap() {
        Err(("read_message_envelope", "payload size exceeds configured local channel maximum"))
    } else {
        Ok(v as usize)
    }
}

impl FrameHeader {
    /// Kind of the header.
    pub fn kind(self) -> (r: FrameKind)
        ensures
            r == spec_header_kind(self),
    {
        match self {
            FrameHeader::Cpu { .. } => FrameKind::Cpu,
            FrameHeader::Gpu { .. } => FrameKind::Gpu,
        }
    }

    /// Payload size of the header.
    pub fn buffer_size(self) -> (r: usize)
        ensures
            r == spec_header_size(self),
    {
        match self {
            FrameHeader::Cpu { buffer_size } => buffer_size,
            FrameHeader::Gpu { buffer_size, .. } => buffer_size,
        }
    }

    /// Encodes the header.
    pub fn to_bytes(self) -> (r: Vec<u8>)
        ensures
            r@ == spec_frame_header_bytes(self),
    {
        let mut out: Vec<u8> = Vec::new();
        out.push(self.kind().to_byte());
        let mut size = vstd::bytes::u64_to_le_bytes(self.buffer_size() as u64);
        out.append(&mut size);
        match self {
            FrameHeader::Cpu { .. } => {},
            FrameHeader::Gpu { device_id, .. } => {
                let mut dev = vstd::bytes::u32_to_le_bytes(device_id);
                out.append(&mut dev);
            },
        }
        assert(out@ =~= spec_frame_header_bytes(self));
        out
    }

    /// Decodes the payload size from its eight bytes and checks it against the limits.
    pub fn size_from_bytes(bytes: &[u8; 8], limits: ProtocolLimits) -> (r: Result<usize>)
        ensures
            matches_decode(r, spec_frame_size(bytes@, limits)),
    {
        let raw = vstd::bytes::u64_from_le_bytes(bytes.as_slice());
        if raw > usize::MAX as u64 {
            return Err(channel_protocol_error("read_message_envelope", "buffer size overflow"));
        }
        let buffer_size = raw as usize;
        limits.validate_inbound_payload_size(buffer_size)?;
        Ok(buffer_size)
    }

    /// Assembles a header from its decoded parts; the device id is read only for GPU frames.
    pub fn from_parts(kind: FrameKind, buffer_size: usize, device_id_bytes: Option<&[u8; 4]>) -> (r:
        FrameHeader)
        requires
            kind == FrameKind::Gpu <==> device_id_bytes is Some,
        ensures
            spec_header_kind(r) == kind,
            spec_header_size(r) == buffer_size,
            r matches FrameHeader::Gpu { device_id, .. } ==> device_id == spec_u32_from_le_bytes(
                device_id_bytes->0@,
            ),
    {
        match device_id_bytes {
            None => FrameHeader::Cpu { buffer_size },
            Some(b) => FrameHeader::Gpu {
                buffer_size,
                device_id: vstd::bytes::u32_from_le_bytes(b.as_slice()),
            },
        }
    }
}

/// A frame header within the limits decodes back from its bytes.
pub proof fn lemma_frame_header_round_trip(h: FrameHeader, limits: ProtocolLimits)
    requires
        spec_header_size(h) <= limits.payload_cap(),
    ensures
        spec_frame_header_bytes(h)[0] == spec_frame_kind_byte(spec_header_kind(h)),
        spec_frame_size(spec_frame_header_bytes(h).subrange(1, 9), limits) == Ok::<
            usize,
            (&'static str, &'static str),
        >(spec_header_size(h)),
        h matches FrameHeader::Gpu { device_id, .. } ==> spec_frame_header_bytes(h).len() == 13
            && spec_u32_from_le_bytes(spec_frame_header_bytes(h).subrange(9, 13)) == device_id,
        h is Cpu ==> spec_frame_header_bytes(h).len() == 9,
{
    vstd::bytes::lemma_auto_spec_u64_to_from_le_bytes();
    vstd::bytes::lemma_auto_spec_u32_to_from_le_bytes();
    let size = spec_u64_to_le_bytes(spec_header_size(h) as u64);
    let head = seq![spec_frame_kind_byte(spec_header_kind(h))] + size;
    assert(head.subrange(1, 9) =~= size);
    match h {
        FrameHeader::Cpu { .. } => {},
        FrameHeader::Gpu { device_id, .. } => {
            let all = head + spec_u32_to_le_bytes(device_id);
            assert(all.subrange(1, 9) =~= size);
            assert(all.subrange(9, 13) =~= spec_u32_to_le_bytes(device_id));
        },
    }
}

/// Bytes of an envelope before the payload handle: the tag and the frame header.
pub open spec fn spec_envelope_prefix(h: FrameHeader) -> Seq<u8> {
    seq![spec_tag_byte(ProtocolTag::MessageEnvelope)] + spec_frame_header_bytes(h)
}

/// Bytes of an envelope after the payload handle: metadata length and metadata.
pub open spec fn spec_envelope_suffix(metadata: Seq<u8>) -> Seq<u8> {
    spec_u32_to_le_bytes(metadata.len() as u32) + metadata
}

/// Encodes the part of an envelope that precedes the payload handle.
pub fn envelope_prefix(header: FrameHeader) -> (r: Vec<u8>)
    ensures
        r@ == spec_envelope_prefix(header),
{
    let mut out: Vec<u8> = Vec::new();
    out.push(ProtocolTag::MessageEnvelope.to_byte());
    let mut rest = header.to_bytes();
    out.append(&mut rest);
    assert(out@ =~= spec_envelope_prefix(header));
    out
}

/// Encodes the part of an envelope that follows the payload handle; metadata longer than
/// `u32::MAX` bytes cannot be framed.
pub fn envelope_suffix(metadata: &[u8]) -> (r: Result<Vec<u8>>)
    ensures
        r is Ok <==> metadata@.len() <= u32::MAX,
        r matches Ok(v) ==> v@ == spec_envelope_suffix(metadata@),
        r matches Err(e) ==> is_protocol_error(e, "write_message_envelope", "metadata length overflow"),
{
    if metadata.len() > u32::MAX as usize {
        return Err(channel_protocol_error("write_message_envelope", "metadata length overflow"));
    }
    let mut out = vstd::bytes::u32_to_le_bytes(metadata.len() as u32);
    let mut i: usize = 0;
    let ghost len_bytes = out@;
    while i < metadata.len()
        invariant
            i <= metadata@.len(),
            out@ == len_bytes + metadata@.subrange(0, i as int),
        decreases metadata@.len() - i,
    {
        out.push(metadata[i]);
        i = i + 1;
        assert(out@ =~= len_bytes + metadata@.subrange(0, i as int));
    }
    assert(metadata@.subrange(0, metadata@.len() as int) =~= metadata@);
    Ok(out)
}

/// Checks the tag that opens a message envelope.
pub fn check_envelope_tag(tag: u8) -> (r: Result<()>)
    ensures
        r is Ok <==> tag == spec_tag_byte(ProtocolTag::MessageEnvelope),
        r matches Err(e) ==> (spec_tag_of(tag) is None ==> is_protocol_error(
            e,
            "read_message_envelope",
            "unknown protocol tag",
        )) && (spec_tag_of(tag) is Some ==> is_protocol_error(
            e,
            "read_message_envelope",
            "unexpected protocol tag",
        )),
{
    let tag = ProtocolTag::read_during(tag, "read_message_envelope")?;
    match tag {
        ProtocolTag::MessageEnvelope => Ok(()),
        _ => Err(channel_protocol_error("read_message_envelope", "unexpected protocol tag")),
    }
}

/// Decodes the metadata length that follows the payload handle and checks it against the
/// limits.
pub fn metadata_len_from_bytes(bytes: &[u8; 4], limits: ProtocolLimits) -> (r: Result<usize>)
    ensures
        r is Ok <==> spec_u32_from_le_bytes(bytes@) <= limits.metadata_cap(),
        r matches Ok(n) ==> n == spec_u32_from_le_bytes(bytes@),
        r matches Err(e) ==> is_protocol_error(
            e,
            "read_message_envelope",
            "metadata length exceeds configured local channel maximum",
        ),
{
    let len = vstd::bytes::u32_from_le_bytes(bytes.as_slice()) as usize;
    limits.validate_inbound_metadata_len(len)?;
    Ok(len)
}

/// Checks an outgoing envelope against the limits: the payload size first, then the metadata
/// length.
pub fn validate_outbound_envelope(header: FrameHeader, metadata_len: usize, limits: ProtocolLimits) -> (r:
    Result<()>)
    ensures
        r is Ok <==> spec_header_size(header) <= limits.payload_cap() && metadata_len
            <= limits.metadata_cap(),
        spec_header_size(header) > limits.payload_cap() ==> (r matches Err(e) && is_protocol_error(
            e,
            "write_message_envelope",
            "payload size exceeds configured local channel maximum",
        )),
        spec_header_size(header) <= limits.payload_cap() && metadata_len > limits.metadata_cap()
            ==> (r matches Err(e) && is_protocol_error(
            e,
            "write_message_envelope",
            "metadata length exceeds configured local channel maximum",
        )),
{
    limits.validate_outbound_payload_size(header.buffer_size())?;
    limits.validate_outbound_metadata_len(metadata_len)?;
    Ok(())
}

/// The suffix of an envelope decodes back to its metadata when within the limits.
pub proof fn lemma_envelope_suffix_round_trip(metadata: Seq<u8>, limits: ProtocolLimits)
    requires
        metadata.len() <= limits.metadata_cap(),
        metadata.len() <= u32::MAX,
    ensures
        spec_u32_from_le_bytes(spec_envelope_suffix(metadata).subrange(0, 4)) == metadata.len(),
        spec_envelope_suffix(metadata).subrange(4, 4 + metadata.len() as int) == metadata,
{
    vstd::bytes::lemma_auto_spec_u32_to_from_le_bytes();
    let l = spec_u32_to_le_bytes(metadata.len() as u32);
    assert(spec_envelope_suffix(metadata).subrange(0, 4) =~= l);
    assert(spec_envelope_suffix(metadata).subrange(4, 4 + metadata.len() as int) =~= metadata);
}

/// Outcome the sender reads from an import acknowledgement tag byte.
pub fn import_ack_result(tag: u8) -> (r: Result<()>)
    ensures
        r is Ok <==> tag == spec_tag_byte(ProtocolTag::ImportOk),
        spec_tag_of(tag) is None ==> (r matches Err(e) && is_protocol_error(
            e,
            "read_import_ack",
            "unknown protocol tag",
        )),
        tag == spec_tag_byte(ProtocolTag::ImportFailed) ==> (r matches Err(e) && is_protocol_error(
            e,
            "read_import_ack",
            "receiver rejected imported handle",
        )),
        spec_tag_of(tag) is Some && tag != spec_tag_byte(ProtocolTag::ImportOk) && tag
            != spec_tag_byte(ProtocolTag::ImportFailed) ==> (r matches Err(e) && is_protocol_error(
            e,
            "read_import_ack",
            "unexpected protocol tag",
        )),
{
    match ProtocolTag::read_during(tag, "read_import_ack")? {
        ProtocolTag::ImportOk => Ok(()),
        ProtocolTag::ImportFailed => Err(
            channel_protocol_error("read_import_ack", "receiver rejected imported handle"),
        ),
        _ => Err(channel_protocol_error("read_import_ack", "unexpected protocol tag")),
    }
}

/// The acknowledgement byte a receiver sends after importing a payload handle.
pub fn import_ack_byte(imported: bool) -> (r: u8)
    ensures
        r == (if imported {
            spec_tag_byte(ProtocolTag::ImportOk)
        } else {
            spec_tag_byte(ProtocolTag::ImportFailed)
        }),
{
    if imported {
        ProtocolTag::ImportOk.to_byte()
    } else {
        ProtocolTag::ImportFailed.to_byte()
    }
}

} // verus!
