//! Message envelopes: the unit a sender writes per message and the receiver reads back, with
//! the payload handle passed out of band between its two byte runs.

use vstd::prelude::*;
use vstd::bytes::{spec_u32_from_le_bytes, spec_u64_from_le_bytes};
use crate::channel::local::wire::{
    check_envelope_tag, envelope_prefix, envelope_suffix, metadata_len_from_bytes,
    spec_envelope_prefix, spec_envelope_suffix, spec_frame_kind_byte, spec_frame_size,
    spec_header_kind, spec_header_size, spec_tag_byte, validate_outbound_envelope, FrameHeader,
    FrameKind, ProtocolLimits, ProtocolTag,
};
use crate::channel::MetadataEncoding;
use crate::error::{is_protocol_error, LavaFlowError, Result};

verus! {

/// The two byte runs of an outgoing envelope: before and after the payload handle.
pub struct OutgoingEnvelope {
    pub prefix: Vec<u8>,
    pub suffix: Vec<u8>,
}

/// Prepares an envelope for a frame with encoded metadata. The payload size is checked
/// first, then the metadata length, both against the limits; metadata that a 32-bit length
/// cannot frame is refused last.
pub fn prepare_envelope(header: FrameHeader, metadata: &[u8], limits: ProtocolLimits) -> (r: Result<
    OutgoingEnvelope,
>)
    ensures
        r is Ok <==> spec_header_size(header) <= limits.payload_cap() && metadata@.len()
            <= limits.metadata_cap() && metadata@.len() <= u32::MAX,
        spec_header_size(header) > limits.payload_cap() ==> (r matches Err(e) && is_protocol_error(
            e,
            "write_message_envelope",
            "payload size exceeds configured local channel maximum",
        )),
        spec_header_size(header) <= limits.payload_cap() && metadata@.len() > limits.metadata_cap()
            ==> (r matches Err(e) && is_protocol_error(
            e,
            "write_message_envelope",
            "metadata length exceeds configured local channel maximum",
        )),
        spec_header_size(header) <= limits.payload_cap() && metadata@.len() <= limits.metadata_cap()
            && metadata@.len() > u32::MAX ==> (r matches Err(e) && is_protocol_error(
            e,
            "write_message_envelope",
            "metadata length overflow",
        )),
        r matches Ok(env) ==> env.prefix@ == spec_envelope_prefix(header) && env.suffix@
            == spec_envelope_suffix(metadata@),
{
    validate_outbound_envelope(header, metadata.len(), limits)?;
    let suffix = envelope_suffix(metadata)?;
    Ok(OutgoingEnvelope { prefix: envelope_prefix(header), suffix })
}

/// Whether metadata in `encoding` can be encoded or decoded: only JSON is implemented.
pub fn check_metadata_encoding(encoding: MetadataEncoding) -> (r: Result<()>)
    ensures
        r is Ok <==> encoding == MetadataEncoding::Json,
        r matches Err(e) ==> e == (LavaFlowError::UnsupportedMetadataEncoding { encoding: "cbor" }),
{
    match encoding {
        MetadataEncoding::Json => Ok(()),
        MetadataEncoding::Cbor => Err(LavaFlowError::UnsupportedMetadataEncoding { encoding: "cbor" }),
    }
}

/// Error of a metadata codec failure with the codec's message.
pub fn metadata_codec_error(operation: &'static str, detail: String) -> (e: LavaFlowError)
    ensures
        e == (LavaFlowError::ChannelMetadataCodec { operation, detail }),
{
    LavaFlowError::ChannelMetadataCodec { operation, detail }
}

/// What a receiver reading an envelope waits for.
#[derive(Copy, Clone, Debug, PartialEq, Eq, Structural)]
pub enum ReaderPhase {
    Tag,
    Kind,
    Size { kind: FrameKind },
    Device { size: usize },
    Handle { header: FrameHeader },
    MetadataLen { header: FrameHeader },
    Metadata { header: FrameHeader, len: usize },
    Complete { header: FrameHeader },
}

/// What the reader needs next.
pub enum ReadRequest {
    /// Read exactly this many bytes and pass them to [`EnvelopeReader::advance`].
    Bytes(usize),
    /// Receive the payload handle of this kind out of band, then call
    /// [`EnvelopeReader::handle_received`].
    Handle(FrameKind),
    /// The envelope is complete.
    Done,
}

/// Receiver-side decoder of one envelope.
pub struct EnvelopeReader {
    phase: ReaderPhase,
    limits: ProtocolLimits,
    metadata: Vec<u8>,
}

impl EnvelopeReader {
    /// The current phase.
    pub closed spec fn phase(&self) -> ReaderPhase {
        self.phase
    }

    /// The limits the reader enforces.
    pub closed spec fn limits(&self) -> ProtocolLimits {
        self.limits
    }

    /// The metadata read so far.
    pub closed spec fn metadata(&self) -> Seq<u8> {
        self.metadata@
    }

    /// Bytes the current phase expects.
    pub open spec fn expected_len(&self) -> nat {
        match self.phase() {
            ReaderPhase::Tag => 1,
            ReaderPhase::Kind => 1,
            ReaderPhase::Size { .. } => 8,
            ReaderPhase::Device { .. } => 4,
            ReaderPhase::MetadataLen { .. } => 4,
            ReaderPhase::Metadata { len, .. } => len as nat,
            _ => 0,
        }
    }

    /// A reader waiting for the envelope tag; it asks for one byte.
    pub fn new(limits: ProtocolLimits) -> (r: (Self, ReadRequest))
        ensures
            r.0.phase() == ReaderPhase::Tag,
            r.0.limits() == limits,
            r.1 == ReadRequest::Bytes(1),
    {
        (EnvelopeReader { phase: ReaderPhase::Tag, limits, metadata: Vec::new() }, ReadRequest::Bytes(1))
    }

    /// The payload handle has arrived; the metadata length comes next.
    pub fn handle_received(&mut self) -> (r: ReadRequest)
        requires
            old(self).phase() is Handle,
        ensures
            final(self).phase() == (ReaderPhase::MetadataLen { header: old(self).phase()->Handle_header }),
            final(self).limits() == old(self).limits(),
            r == ReadRequest::Bytes(4),
    {
        match self.phase {
            ReaderPhase::Handle { header } => {
                self.phase = ReaderPhase::MetadataLen { header };
            },
            _ => {},
        }
        ReadRequest::Bytes(4)
    }

    /// Consumes the bytes the previous request asked for.
    pub fn advance(&mut self, input: &[u8]) -> (r: Result<ReadRequest>)
        requires
            old(self).expected_len() > 0,
            input@.len() == old(self).expected_len(),
        ensures
            final(self).limits() == old(self).limits(),
            old(self).phase() == ReaderPhase::Tag ==> {
                &&& r is Ok <==> input@[0] == spec_tag_byte(ProtocolTag::MessageEnvelope)
                &&& r matches Ok(q) ==> q == ReadRequest::Bytes(1) && final(self).phase() == ReaderPhase::Kind
                &&& r matches Err(e) ==> (e matches LavaFlowError::ChannelTransportOperation { operation, .. }
                    && operation@ == "read_message_envelope"@)
            },
            old(self).phase() == ReaderPhase::Kind ==> {
                &&& r is Ok <==> (input@[0] == 1 || input@[0] == 2)
                &&& r matches Ok(q) ==> q == ReadRequest::Bytes(8) && final(self).phase() is Size
                    && spec_frame_kind_byte(final(self).phase()->kind) == input@[0]
                &&& r matches Err(e) ==> is_protocol_error(e, "decode_frame_kind", "unknown frame kind")
            },
            old(self).phase() matches ReaderPhase::Size { kind } ==> {
                &&& r is Ok <==> spec_frame_size(input@, old(self).limits()) is Ok
                &&& r matches Ok(q) ==> kind == FrameKind::Cpu ==> q == ReadRequest::Handle(FrameKind::Cpu)
                    && final(self).phase() == (ReaderPhase::Handle {
                    header: FrameHeader::Cpu { buffer_size: spec_frame_size(input@, old(self).limits())->Ok_0 },
                })
                &&& r matches Ok(q) ==> kind == FrameKind::Gpu ==> q == ReadRequest::Bytes(4)
                    && final(self).phase() == (ReaderPhase::Device {
                    size: spec_frame_size(input@, old(self).limits())->Ok_0,
                })
                &&& r matches Err(e) ==> (e matches LavaFlowError::ChannelTransportOperation { operation, .. }
                    && operation@ == "read_message_envelope"@)
            },
            old(self).phase() matches ReaderPhase::Device { size } ==> r matches Ok(q)
                && q == ReadRequest::Handle(FrameKind::Gpu) && final(self).phase() == (ReaderPhase::Handle {
                header: FrameHeader::Gpu { buffer_size: size, device_id: spec_u32_from_le_bytes(input@) },
            }),
            old(self).phase() matches ReaderPhase::MetadataLen { header } ==> {
                &&& r is Ok <==> spec_u32_from_le_bytes(input@) <= old(self).limits().metadata_cap()
                &&& r matches Ok(q) ==> (spec_u32_from_le_bytes(input@) == 0 ==> q == ReadRequest::Done
                    && final(self).phase() == (ReaderPhase::Complete { header })
                    && final(self).metadata().len() == 0)
                &&& r matches Ok(q) ==> (spec_u32_from_le_bytes(input@) > 0 ==> q == ReadRequest::Bytes(
                    spec_u32_from_le_bytes(input@) as usize,
                ) && final(self).phase() == (ReaderPhase::Metadata {
                    header,
                    len: spec_u32_from_le_bytes(input@) as usize,
                }))
                &&& r matches Err(e) ==> is_protocol_error(
                    e,
                    "read_message_envelope",
                    "metadata length exceeds configured local channel maximum",
                )
            },
            old(self).phase() matches ReaderPhase::Metadata { header, .. } ==> r matches Ok(q) && q
                == ReadRequest::Done && final(self).phase() == (ReaderPhase::Complete { header })
                && final(self).metadata() == input@,
    {
        match self.phase {
            ReaderPhase::Tag => {
                check_envelope_tag(input[0])?;
                self.phase = ReaderPhase::Kind;
                Ok(ReadRequest::Bytes(1))
            },
            ReaderPhase::Kind => {
                let kind = FrameKind::try_from_byte(input[0])?;
                self.phase = ReaderPhase::Size { kind };
                Ok(ReadRequest::Bytes(8))
            },
            ReaderPhase::Size { kind } => {
                let mut bytes = [0u8; 8];
                let mut i: usize = 0;
                while i < 8
                    invariant
                        i <= 8,
                        input@.len() == 8,
                        forall|k: int| 0 <= k < i ==> bytes@[k] == input@[k],
                    decreases 8 - i,
                {
                    bytes[i] = input[i];
                    i = i + 1;
                }
                assert(bytes@ =~= input@);
                let size = FrameHeader::size_from_bytes(&bytes, self.limits)?;
                match kind {
                    FrameKind::Cpu => {
                        self.phase = ReaderPhase::Handle { header: FrameHeader::Cpu { buffer_size: size } };
                        Ok(ReadRequest::Handle(FrameKind::Cpu))
                    },
                    FrameKind::Gpu => {
                        self.phase = ReaderPhase::Device { size };
                        Ok(ReadRequest::Bytes(4))
                    },
                }
            },
            ReaderPhase::Device { size } => {
                let device_id = vstd::bytes::u32_from_le_bytes(input);
                self.phase = ReaderPhase::Handle {
                    header: FrameHeader::Gpu { buffer_size: size, device_id },
                };
                Ok(ReadRequest::Handle(FrameKind::Gpu))
            },
            ReaderPhase::MetadataLen { header } => {
                let mut bytes = [0u8; 4];
                let mut i: usize = 0;
                while i < 4
                    invariant
                        i <= 4,
                        input@.len() == 4,
                        forall|k: int| 0 <= k < i ==> bytes@[k] == input@[k],
                    decreases 4 - i,
                {
                    bytes[i] = input[i];
                    i = i + 1;
                }
                assert(bytes@ =~= input@);
                let len = metadata_len_from_bytes(&bytes, self.limits)?;
                if len == 0 {
                    self.metadata = Vec::new();
                    self.phase = ReaderPhase::Complete { header };
                    Ok(ReadRequest::Done)
                } else {
                    self.phase = ReaderPhase::Metadata { header, len };
                    Ok(ReadRequest::Bytes(len))
                }
            },
            ReaderPhase::Metadata { header, .. } => {
                let mut metadata: Vec<u8> = Vec::new();
                let mut i: usize = 0;
                while i < input.len()
                    invariant
                        i <= input@.len(),
                        metadata@ == input@.subrange(0, i as int),
                    decreases input@.len() - i,
                {
                    metadata.push(input[i]);
                    i = i + 1;
                    assert(metadata@ =~= input@.subrange(0, i as int));
                }
                assert(input@.subrange(0, input@.len() as int) =~= input@);
                self.metadata = metadata;
                self.phase = ReaderPhase::Complete { header };
                Ok(ReadRequest::Done)
            },
            _ => {
                assert(false);
                Ok(ReadRequest::Done)
            },
        }
    }

    /// The decoded header and metadata of a complete envelope.
    pub fn finish(self) -> (r: (FrameHeader, Vec<u8>))
        requires
            self.phase() is Complete,
        ensures
            r.0 == self.phase()->Complete_header,
            r.1@ == self.metadata(),
    {
        match self.phase {
            ReaderPhase::Complete { header } => (header, self.metadata),
            _ => (FrameHeader::Cpu { buffer_size: 0 }, self.metadata),
        }
    }
}

/// Every byte run an envelope writer produces is what the reader accepts and decodes back:
/// the tag, the kind, the size within the limits, the device of a GPU frame, and the
/// metadata with its length.
pub proof fn lemma_envelope_round_trip(header: FrameHeader, metadata: Seq<u8>, limits: ProtocolLimits)
    requires
        spec_header_size(header) <= limits.payload_cap(),
        metadata.len() <= limits.metadata_cap(),
        metadata.len() <= u32::MAX,
    ensures
        spec_envelope_prefix(header)[0] == spec_tag_byte(ProtocolTag::MessageEnvelope),
        spec_envelope_prefix(header)[1] == spec_frame_kind_byte(spec_header_kind(header)),
        spec_frame_size(spec_envelope_prefix(header).subrange(2, 10), limits) == Ok::<
            usize,
            (&'static str, &'static str),
        >(spec_header_size(header)),
        header is Cpu ==> spec_envelope_prefix(header).len() == 10,
        header matches FrameHeader::Gpu { device_id, .. } ==> spec_envelope_prefix(header).len()
            == 14 && spec_u32_from_le_bytes(spec_envelope_prefix(header).subrange(10, 14))
            == device_id,
        spec_u32_from_le_bytes(spec_envelope_suffix(metadata).subrange(0, 4)) == metadata.len(),
        spec_envelope_suffix(metadata).subrange(4, 4 + metadata.len() as int) == metadata,
{
    crate::channel::local::wire::lemma_frame_header_round_trip(header, limits);
    crate::channel::local::wire::lemma_envelope_suffix_round_trip(metadata, limits);
    let fh = crate::channel::local::wire::spec_frame_header_bytes(header);
    let p = spec_envelope_prefix(header);
    assert(p.subrange(2, 10) =~= fh.subrange(1, 9));
    if header is Gpu {
        assert(p.subrange(10, 14) =~= fh.subrange(9, 13));
    }
}

/// Checks the control header a sender prepared to pass a payload handle: without room for
/// one, nothing can be sent.
pub fn check_handle_header(has_header: bool) -> (r: Result<()>)
    ensures
        r is Ok <==> has_header,
        r matches Err(e) ==> is_protocol_error(e, "send_fd", "missing cmsg header"),
{
    if !has_header {
        return Err(crate::error::channel_protocol_error("send_fd", "missing cmsg header"));
    }
    Ok(())
}

/// Checks what came with a received handle marker: a control message must be there, and it
/// must carry socket rights, that is a passed descriptor.
pub fn check_received_handle(has_header: bool, carries_rights: bool) -> (r: Result<()>)
    ensures
        r is Ok <==> has_header && carries_rights,
        !has_header ==> (r matches Err(e) && is_protocol_error(e, "recv_fd", "missing received handle")),
        has_header && !carries_rights ==> (r matches Err(e) && is_protocol_error(
            e,
            "recv_fd",
            "unexpected received cmsg type",
        )),
{
    if !has_header {
        return Err(crate::error::channel_protocol_error("recv_fd", "missing received handle"));
    }
    if !carries_rights {
        return Err(crate::error::channel_protocol_error("recv_fd", "unexpected received cmsg type"));
    }
    Ok(())
}

} // verus!
