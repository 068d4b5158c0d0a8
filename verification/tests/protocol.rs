use lava_flow::channel::local::envelope::{
    check_metadata_encoding, prepare_envelope, EnvelopeReader, ReadRequest,
};
use lava_flow::channel::local::wire::{
    import_ack_byte, import_ack_result, Access, AuthMode, ConnectionHeader, FrameHeader,
    FrameKind, ProtocolLimits, ProtocolTag, DEFAULT_MAX_LOCAL_CHANNEL_METADATA_SIZE,
    DEFAULT_MAX_LOCAL_CHANNEL_PAYLOAD_SIZE, LOCAL_PROTOCOL_VERSION,
};
use lava_flow::channel::MetadataEncoding;
use lava_flow::error::{IoErrorKind, LavaFlowError};

const BUFFER_SIZE: usize = 64;
const SMALL_PAYLOAD_LIMIT: usize = BUFFER_SIZE - 1;
const SMALL_METADATA_LIMIT: usize = 8;

fn operation_of(err: &LavaFlowError) -> &'static str {
    match err {
        LavaFlowError::ChannelTransportOperation { operation, .. } => operation,
        other => panic!("unexpected error {other:?}"),
    }
}

fn decode_header(bytes: [u8; 5]) -> Result<ConnectionHeader, LavaFlowError> {
    ConnectionHeader::check_tag(bytes[0])?;
    ConnectionHeader::from_body(&[bytes[1], bytes[2], bytes[3], bytes[4]])
}

/// Feeds a byte stream to an envelope reader and records the handle it asked for, if any.
fn read_envelope(
    stream: &[u8],
    limits: ProtocolLimits,
) -> Result<(FrameHeader, Vec<u8>, Option<FrameKind>), LavaFlowError> {
    let (mut reader, mut request) = EnvelopeReader::new(limits);
    let mut pos = 0;
    let mut handle = None;
    loop {
        match request {
            ReadRequest::Bytes(n) => {
                let chunk = &stream[pos..pos + n];
                pos += n;
                request = reader.advance(chunk)?;
            }
            ReadRequest::Handle(kind) => {
                handle = Some(kind);
                request = reader.handle_received();
            }
            ReadRequest::Done => {
                let (header, metadata) = reader.finish();
                return Ok((header, metadata, handle));
            }
        }
    }
}

#[test]
fn local_protocol_limits_default_to_expected_caps() {
    let limits = ProtocolLimits::default();
    assert_eq!(limits.max_payload_size(), DEFAULT_MAX_LOCAL_CHANNEL_PAYLOAD_SIZE);
    assert_eq!(limits.max_metadata_size(), DEFAULT_MAX_LOCAL_CHANNEL_METADATA_SIZE);
}

#[test]
fn local_protocol_limits_zero_caps_fall_back_to_defaults() {
    let limits = ProtocolLimits::with_max_sizes(0, 0);
    assert_eq!(limits.max_payload_size(), DEFAULT_MAX_LOCAL_CHANNEL_PAYLOAD_SIZE);
    assert_eq!(limits.max_metadata_size(), DEFAULT_MAX_LOCAL_CHANNEL_METADATA_SIZE);
}

#[test]
fn protocol_limits_keep_explicit_caps() {
    let limits = ProtocolLimits::with_max_sizes(7, 9);
    assert_eq!(limits.max_payload_size(), 7);
    assert_eq!(limits.max_metadata_size(), 9);
    assert!(limits.validate_outbound_payload_size(7).is_ok());
    assert!(limits.validate_outbound_payload_size(8).is_err());
    assert!(limits.validate_inbound_metadata_len(9).is_ok());
    assert!(limits.validate_inbound_metadata_len(10).is_err());
}

#[test]
fn protocol_tag_decodes_auth_control_tags() {
    for tag in [
        ProtocolTag::AuthChallenge,
        ProtocolTag::AuthResponse,
        ProtocolTag::AuthOk,
        ProtocolTag::AuthFailed,
    ] {
        assert_eq!(ProtocolTag::try_from_byte(tag.to_byte()).expect("known tag"), tag);
    }
}

#[test]
fn protocol_tag_bytes_are_fixed() {
    let expected = [
        (ProtocolTag::ConnectionHeader, 1),
        (ProtocolTag::MessageEnvelope, 2),
        (ProtocolTag::ImportOk, 3),
        (ProtocolTag::ImportFailed, 4),
        (ProtocolTag::ConnectionOk, 5),
        (ProtocolTag::AuthChallenge, 6),
        (ProtocolTag::AuthResponse, 7),
        (ProtocolTag::AuthOk, 8),
        (ProtocolTag::AuthFailed, 9),
    ];
    for (tag, byte) in expected {
        assert_eq!(tag.to_byte(), byte);
    }
    for byte in [0u8, 10, 99, 255] {
        let err = ProtocolTag::try_from_byte(byte).expect_err("unknown tag");
        assert_eq!(operation_of(&err), "decode_protocol_tag");
    }
}

#[test]
fn sender_rejects_unknown_protocol_tag_when_reading_control_reply() {
    let err = ProtocolTag::read_during(99, "read_test_control")
        .expect_err("sender must reject unknown protocol tag");
    assert!(matches!(
        err,
        LavaFlowError::ChannelTransportOperation { operation: "read_test_control", .. }
    ));
}

#[test]
fn protocol_tag_reads_sender_import_ack_directly() {
    let tag = ProtocolTag::read_during(ProtocolTag::ImportOk.to_byte(), "read_import_ack")
        .expect("read import-ok tag directly");
    assert_eq!(tag, ProtocolTag::ImportOk);
}

#[test]
fn sender_reports_import_failed_ack() {
    let err = import_ack_result(ProtocolTag::ImportFailed.to_byte())
        .expect_err("sender must report rejected imported handle");
    assert!(matches!(
        err,
        LavaFlowError::ChannelTransportOperation { operation: "read_import_ack", .. }
    ));
}

#[test]
fn sender_rejects_unexpected_import_ack_tag() {
    let err = import_ack_result(ProtocolTag::MessageEnvelope.to_byte())
        .expect_err("sender must reject unexpected ack tag");
    assert!(matches!(
        err,
        LavaFlowError::ChannelTransportOperation { operation: "read_import_ack", .. }
    ));
}

#[test]
fn import_ack_bytes_round_trip() {
    assert!(import_ack_result(import_ack_byte(true)).is_ok());
    assert!(import_ack_result(import_ack_byte(false)).is_err());
}

#[test]
fn connection_header_round_trips() {
    for encoding in [MetadataEncoding::Json, MetadataEncoding::Cbor] {
        for access in [Access::CurrentSession, Access::AuthenticatedUsers] {
            for auth_mode in [AuthMode::NoAuth, AuthMode::SharedSecretHmacSha256] {
                let header = ConnectionHeader { encoding, access, auth_mode };
                let bytes = header.to_bytes();
                assert_eq!(bytes[0], 1);
                assert_eq!(bytes[1], LOCAL_PROTOCOL_VERSION);
                assert_eq!(decode_header(bytes).expect("decode"), header);
            }
        }
    }
}

#[test]
fn receiver_rejects_unsupported_protocol_version() {
    let err = decode_header([
        ProtocolTag::ConnectionHeader.to_byte(),
        LOCAL_PROTOCOL_VERSION + 1,
        MetadataEncoding::Json.to_byte(),
        Access::CurrentSession.to_byte(),
        AuthMode::NoAuth.to_byte(),
    ])
    .expect_err("receiver must reject unsupported protocol version");
    assert!(matches!(
        err,
        LavaFlowError::ChannelTransportOperation { operation: "read_connection_header", .. }
    ));
}

#[test]
fn receiver_rejects_unknown_auth_mode_in_connection_header() {
    let err = decode_header([
        ProtocolTag::ConnectionHeader.to_byte(),
        LOCAL_PROTOCOL_VERSION,
        MetadataEncoding::Json.to_byte(),
        Access::CurrentSession.to_byte(),
        99,
    ])
    .expect_err("receiver must reject unknown authentication mode");
    assert!(matches!(
        err,
        LavaFlowError::ChannelTransportOperation { operation: "decode_auth_mode", .. }
    ));
}

#[test]
fn receiver_rejects_unexpected_connection_header_tag() {
    let err = ConnectionHeader::check_tag(ProtocolTag::MessageEnvelope.to_byte())
        .expect_err("receiver must reject unexpected connection-header tag");
    assert!(matches!(
        err,
        LavaFlowError::ChannelTransportOperation { operation: "read_connection_header", .. }
    ));
}

#[test]
fn receiver_rejects_unknown_metadata_encoding_in_connection_header() {
    let err = decode_header([
        ProtocolTag::ConnectionHeader.to_byte(),
        LOCAL_PROTOCOL_VERSION,
        99,
        Access::CurrentSession.to_byte(),
        AuthMode::NoAuth.to_byte(),
    ])
    .expect_err("receiver must reject unknown metadata encoding");
    assert!(matches!(
        err,
        LavaFlowError::ChannelTransportOperation { operation: "decode_connection_header", .. }
    ));
}

#[test]
fn receiver_rejects_unknown_local_access_in_connection_header() {
    let err = decode_header([
        ProtocolTag::ConnectionHeader.to_byte(),
        LOCAL_PROTOCOL_VERSION,
        MetadataEncoding::Json.to_byte(),
        99,
        AuthMode::NoAuth.to_byte(),
    ])
    .expect_err("receiver must reject unknown local access policy");
    assert!(matches!(
        err,
        LavaFlowError::ChannelTransportOperation { operation: "decode_local_access", .. }
    ));
}

#[test]
fn mod_metadata_encoding_rejects_unknown_wire_value() {
    let err = MetadataEncoding::try_from_byte(99).expect_err("unknown encoding must fail");
    assert!(matches!(
        err,
        LavaFlowError::ChannelTransportOperation { operation: "decode_connection_header", .. }
    ));
}

#[test]
fn metadata_encoding_defaults_to_json() {
    assert_eq!(MetadataEncoding::default(), MetadataEncoding::Json);
    assert_eq!(MetadataEncoding::Json.to_byte(), 0);
    assert_eq!(MetadataEncoding::Cbor.to_byte(), 1);
}

#[test]
fn mod_cbor_metadata_encoding_is_not_implemented_yet() {
    let err = check_metadata_encoding(MetadataEncoding::Cbor).expect_err("cbor is rejected");
    assert!(matches!(err, LavaFlowError::UnsupportedMetadataEncoding { encoding: "cbor" }));
    assert!(check_metadata_encoding(MetadataEncoding::Json).is_ok());
}

#[test]
fn message_envelope_rejects_cbor_metadata_decode() {
    let err = check_metadata_encoding(MetadataEncoding::Cbor)
        .expect_err("cbor metadata decode must be rejected");
    assert!(matches!(err, LavaFlowError::UnsupportedMetadataEncoding { encoding: "cbor" }));
}

#[test]
fn frame_header_gpu_round_trips_device_id() {
    let header = FrameHeader::Gpu { buffer_size: BUFFER_SIZE, device_id: 7 };
    let bytes = header.to_bytes();
    assert_eq!(bytes.len(), 13);
    let kind = FrameKind::try_from_byte(bytes[0]).expect("kind");
    let mut size = [0u8; 8];
    size.copy_from_slice(&bytes[1..9]);
    let buffer_size =
        FrameHeader::size_from_bytes(&size, ProtocolLimits::default()).expect("size");
    let mut device = [0u8; 4];
    device.copy_from_slice(&bytes[9..13]);
    let read_back = FrameHeader::from_parts(kind, buffer_size, Some(&device));
    assert_eq!(read_back, header);
}

#[test]
fn frame_header_layout_is_little_endian() {
    let header = FrameHeader::Cpu { buffer_size: 0x0102 };
    assert_eq!(header.to_bytes(), vec![1, 0x02, 0x01, 0, 0, 0, 0, 0, 0]);
    let gpu = FrameHeader::Gpu { buffer_size: 1, device_id: 0x0a0b0c0d };
    assert_eq!(gpu.to_bytes(), vec![2, 1, 0, 0, 0, 0, 0, 0, 0, 0x0d, 0x0c, 0x0b, 0x0a]);
}

#[test]
fn message_envelope_write_and_read_round_trip_directly() {
    let metadata = b"{\"width\":123,\"height\":456}".to_vec();
    let header = FrameHeader::Cpu { buffer_size: BUFFER_SIZE };
    let envelope =
        prepare_envelope(header, &metadata, ProtocolLimits::default()).expect("create envelope");
    let mut stream = envelope.prefix.clone();
    stream.extend_from_slice(&envelope.suffix);
    let (read_header, read_metadata, handle) =
        read_envelope(&stream, ProtocolLimits::default()).expect("read message envelope");
    assert_eq!(read_metadata, metadata);
    assert_eq!(read_header, FrameHeader::Cpu { buffer_size: BUFFER_SIZE });
    assert_eq!(handle, Some(FrameKind::Cpu));
}

#[test]
fn gpu_envelope_round_trips_with_empty_metadata() {
    let header = FrameHeader::Gpu { buffer_size: 4096, device_id: 2 };
    let envelope = prepare_envelope(header, &[], ProtocolLimits::default()).expect("envelope");
    let mut stream = envelope.prefix.clone();
    stream.extend_from_slice(&envelope.suffix);
    let (read_header, read_metadata, handle) =
        read_envelope(&stream, ProtocolLimits::default()).expect("read");
    assert_eq!(read_header, header);
    assert!(read_metadata.is_empty());
    assert_eq!(handle, Some(FrameKind::Gpu));
}

#[test]
fn message_envelope_write_rejects_payloads_above_configured_limit() {
    let limits =
        ProtocolLimits::with_max_sizes(SMALL_PAYLOAD_LIMIT, DEFAULT_MAX_LOCAL_CHANNEL_METADATA_SIZE);
    let err = prepare_envelope(FrameHeader::Cpu { buffer_size: BUFFER_SIZE }, b"{}", limits)
        .err()
        .expect("oversized payload must be rejected before send");
    assert!(matches!(
        err,
        LavaFlowError::ChannelTransportOperation { operation: "write_message_envelope", .. }
    ));
}

#[test]
fn message_envelope_write_rejects_metadata_above_configured_limit() {
    let limits =
        ProtocolLimits::with_max_sizes(DEFAULT_MAX_LOCAL_CHANNEL_PAYLOAD_SIZE, SMALL_METADATA_LIMIT);
    let metadata = vec![b'x'; SMALL_METADATA_LIMIT + 1];
    let err = prepare_envelope(FrameHeader::Cpu { buffer_size: BUFFER_SIZE }, &metadata, limits)
        .err()
        .expect("oversized metadata must be rejected before send");
    assert!(matches!(
        err,
        LavaFlowError::ChannelTransportOperation { operation: "write_message_envelope", .. }
    ));
}

#[test]
fn receiver_rejects_unknown_protocol_tag_when_reading_message_envelope() {
    let err = read_envelope(&[99], ProtocolLimits::default())
        .expect_err("receiver must reject unknown protocol tag");
    assert!(matches!(
        err,
        LavaFlowError::ChannelTransportOperation { operation: "read_message_envelope", .. }
    ));
}

#[test]
fn receiver_rejects_unexpected_but_known_protocol_tag_when_reading_message_envelope() {
    let err = read_envelope(&[ProtocolTag::ImportOk.to_byte()], ProtocolLimits::default())
        .expect_err("receiver must reject unexpected known message tag");
    assert!(matches!(
        err,
        LavaFlowError::ChannelTransportOperation { operation: "read_message_envelope", .. }
    ));
}

#[test]
fn receiver_rejects_unknown_frame_kind_in_message_envelope() {
    let err = read_envelope(&[ProtocolTag::MessageEnvelope.to_byte(), 99], ProtocolLimits::default())
        .expect_err("receiver must reject unknown frame kind");
    assert!(matches!(
        err,
        LavaFlowError::ChannelTransportOperation { operation: "decode_frame_kind", .. }
    ));
}

#[test]
fn receiver_rejects_payload_size_above_configured_limit_when_reading_message_envelope() {
    let limits =
        ProtocolLimits::with_max_sizes(SMALL_PAYLOAD_LIMIT, DEFAULT_MAX_LOCAL_CHANNEL_METADATA_SIZE);
    let mut stream = vec![ProtocolTag::MessageEnvelope.to_byte(), FrameKind::Cpu.to_byte()];
    stream.extend_from_slice(&(BUFFER_SIZE as u64).to_le_bytes());
    let err = read_envelope(&stream, limits).expect_err("receiver must reject oversized payload size");
    assert!(matches!(
        err,
        LavaFlowError::ChannelTransportOperation { operation: "read_message_envelope", .. }
    ));
}

#[test]
fn receiver_rejects_metadata_length_above_configured_limit_when_reading_message_envelope() {
    let limits =
        ProtocolLimits::with_max_sizes(DEFAULT_MAX_LOCAL_CHANNEL_PAYLOAD_SIZE, SMALL_METADATA_LIMIT);
    let mut stream = vec![ProtocolTag::MessageEnvelope.to_byte(), FrameKind::Cpu.to_byte()];
    stream.extend_from_slice(&(BUFFER_SIZE as u64).to_le_bytes());
    stream.extend_from_slice(&((SMALL_METADATA_LIMIT + 1) as u32).to_le_bytes());
    let err =
        read_envelope(&stream, limits).expect_err("receiver must reject oversized metadata length");
    match err {
        LavaFlowError::ChannelTransportOperation { operation, kind, message } => {
            assert_eq!(operation, "read_message_envelope");
            assert_eq!(kind, IoErrorKind::InvalidInput);
            assert_eq!(message, "metadata length exceeds configured local channel maximum");
        }
        other => panic!("unexpected error {other:?}"),
    }
}

#[test]
fn receiver_rejects_buffer_size_that_overflows_usize_only_when_it_does() {
    let mut stream = vec![ProtocolTag::MessageEnvelope.to_byte(), FrameKind::Cpu.to_byte()];
    stream.extend_from_slice(&u64::MAX.to_le_bytes());
    stream.extend_from_slice(&0u32.to_le_bytes());
    let limits = ProtocolLimits::with_max_sizes(usize::MAX, 0);
    let result = read_envelope(&stream, limits);
    if usize::BITS < 64 {
        let err = result.err().expect("overflow");
        assert_eq!(operation_of(&err), "read_message_envelope");
    } else {
        let (header, metadata, handle) = result.expect("fits in usize");
        assert_eq!(header, FrameHeader::Cpu { buffer_size: usize::MAX });
        assert!(metadata.is_empty());
        assert_eq!(handle, Some(FrameKind::Cpu));
    }
}
