use lava_flow::error::{LavaFlowError, ValidationReason};
use lava_flow::types::{detect_scope, ChannelId, CommunicationScope, ProcessLocation, ProcessName};

const MAX_IDENTIFIER_LEN: usize = 64;
const MAX_HOSTNAME_LEN: usize = 253;

#[test]
fn process_name_accepts_valid_identifiers() {
    let name = ProcessName::new("gpu_worker_01").expect("valid process name");
    assert_eq!(name.as_str(), "gpu_worker_01");
}

#[test]
fn process_name_into_inner_returns_owned_value() {
    let name = ProcessName::new("gpu_worker_01").expect("valid process name");
    assert_eq!(name.into_inner(), "gpu_worker_01");
}

#[test]
fn process_name_rejects_invalid_identifiers() {
    let err = ProcessName::new("GPU-WORKER").expect_err("expected validation error");
    assert!(matches!(
        err,
        LavaFlowError::InvalidProcessName { reason: ValidationReason::InvalidCharacters, .. }
    ));
}

#[test]
fn process_name_rejects_empty_identifiers() {
    let err = ProcessName::new("").expect_err("expected validation error");
    assert!(matches!(
        err,
        LavaFlowError::InvalidProcessName { reason: ValidationReason::Empty, .. }
    ));
}

#[test]
fn process_name_rejects_too_long_identifiers() {
    let too_long = "a".repeat(MAX_IDENTIFIER_LEN + 1);
    let err = ProcessName::new(&too_long).expect_err("expected validation error");
    assert!(matches!(
        err,
        LavaFlowError::InvalidProcessName { reason: ValidationReason::IdentifierTooLong, .. }
    ));
}

#[test]
fn process_name_rejects_invalid_start_identifiers() {
    let err = ProcessName::new("-gpu").expect_err("expected validation error");
    assert!(matches!(
        err,
        LavaFlowError::InvalidProcessName { reason: ValidationReason::InvalidStartCharacter, .. }
    ));
}

#[test]
fn channel_id_accepts_valid_identifiers() {
    let channel_id = ChannelId::new("channel-0").expect("valid channel id");
    assert_eq!(channel_id.as_str(), "channel-0");
}

#[test]
fn channel_id_into_inner_returns_owned_value() {
    let channel_id = ChannelId::new("channel-0").expect("valid channel id");
    assert_eq!(channel_id.into_inner(), "channel-0");
}

#[test]
fn channel_id_rejects_invalid_identifiers() {
    let err = ChannelId::new("-invalid").expect_err("expected validation error");
    assert!(matches!(
        err,
        LavaFlowError::InvalidChannelId { reason: ValidationReason::InvalidStartCharacter, .. }
    ));
}

#[test]
fn process_location_with_ids_preserves_metadata() {
    let location =
        ProcessLocation::with_ids("gpu-node-0", Some(7), Some(3)).expect("valid location");
    assert_eq!(location.hostname(), "gpu-node-0");
    assert_eq!(location.node_id(), Some(7));
    assert_eq!(location.device_id(), Some(3));
}

#[test]
fn process_location_with_ids_rejects_invalid_hostname() {
    let err = ProcessLocation::with_ids("gpu node 0", Some(7), Some(3))
        .expect_err("expected hostname validation error");
    assert!(matches!(
        err,
        LavaFlowError::InvalidHostname { reason: ValidationReason::InvalidCharacters, .. }
    ));
}

#[test]
fn process_location_from_hostname_works() {
    let location = ProcessLocation::from_hostname().expect("hostname lookup should succeed");
    assert!(!location.hostname().is_empty());
}

#[test]
fn scope_detection_is_local_when_hostnames_match() {
    let my_location = ProcessLocation::new("gpu-node-0").expect("valid hostname");
    let peer_location = ProcessLocation::new("gpu-node-0").expect("valid hostname");

    let scope = CommunicationScope::from_locations(&my_location, &peer_location);

    assert_eq!(scope, CommunicationScope::Local);
}

#[test]
fn scope_detection_is_remote_when_hostnames_differ() {
    let my_location = ProcessLocation::new("gpu-node-0").expect("valid hostname");
    let peer_location = ProcessLocation::new("gpu-node-1").expect("valid hostname");

    let scope = CommunicationScope::from_locations(&my_location, &peer_location);

    assert_eq!(scope, CommunicationScope::Remote);
}

#[test]
fn scope_detection_is_case_insensitive_after_normalization() {
    let my_location = ProcessLocation::new("GPU-NODE-0").expect("valid hostname");
    let peer_location = ProcessLocation::new("gpu-node-0").expect("valid hostname");

    let scope = detect_scope(&my_location, &peer_location);

    assert_eq!(scope, CommunicationScope::Local);
}

#[test]
fn process_location_rejects_empty_hostname() {
    let err = ProcessLocation::new("").expect_err("expected hostname validation error");
    assert!(matches!(
        err,
        LavaFlowError::InvalidHostname { reason: ValidationReason::Empty, .. }
    ));
}

#[test]
fn process_location_rejects_invalid_hostname_characters() {
    let err = ProcessLocation::new("gpu node 0").expect_err("expected hostname validation error");
    assert!(matches!(
        err,
        LavaFlowError::InvalidHostname { reason: ValidationReason::InvalidCharacters, .. }
    ));
}

#[test]
fn process_location_rejects_invalid_start_hostname() {
    let err = ProcessLocation::new("-gpu-node-0").expect_err("expected hostname validation error");
    assert!(matches!(
        err,
        LavaFlowError::InvalidHostname { reason: ValidationReason::InvalidStartCharacter, .. }
    ));
}

#[test]
fn process_location_rejects_too_long_hostname() {
    let too_long = "a".repeat(MAX_HOSTNAME_LEN + 1);
    let err = ProcessLocation::new(&too_long).expect_err("expected hostname validation error");
    assert!(matches!(
        err,
        LavaFlowError::InvalidHostname { reason: ValidationReason::HostnameTooLong, .. }
    ));
}

#[test]
fn hostname_is_trimmed_before_validation_and_lowercased() {
    let location = ProcessLocation::new("  \tGPU-Node.Example_1 \n").expect("valid hostname");
    assert_eq!(location.hostname(), "gpu-node.example_1");
}

#[test]
fn hostname_error_reports_input_as_given() {
    let err = ProcessLocation::new("  bad host  ").expect_err("expected hostname validation error");
    match err {
        LavaFlowError::InvalidHostname { value, reason } => {
            assert_eq!(value, "  bad host  ");
            assert_eq!(reason, ValidationReason::InvalidCharacters);
        }
        other => panic!("unexpected error {other:?}"),
    }
    let err = ProcessLocation::new(" -gpu ").expect_err("expected hostname validation error");
    match err {
        LavaFlowError::InvalidHostname { value, reason } => {
            assert_eq!(value, " -gpu ");
            assert_eq!(reason, ValidationReason::InvalidStartCharacter);
        }
        other => panic!("unexpected error {other:?}"),
    }
}

#[test]
fn white_space_only_hostname_is_empty() {
    let err = ProcessLocation::new(" \u{3000}\u{a0} ").expect_err("expected hostname validation error");
    assert!(matches!(
        err,
        LavaFlowError::InvalidHostname { reason: ValidationReason::Empty, .. }
    ));
}

#[test]
fn identifier_length_limit_counts_characters() {
    let at_limit = "a".repeat(MAX_IDENTIFIER_LEN);
    assert!(ProcessName::new(&at_limit).is_ok());
    let too_long = "é".repeat(MAX_IDENTIFIER_LEN + 1);
    let err = ChannelId::new(&too_long).expect_err("65 characters exceed the limit");
    assert!(matches!(
        err,
        LavaFlowError::InvalidChannelId { reason: ValidationReason::IdentifierTooLong, .. }
    ));
    let multibyte = format!("a{}", "é".repeat(33));
    let err = ChannelId::new(&multibyte).expect_err("34 characters are within the limit");
    assert!(matches!(
        err,
        LavaFlowError::InvalidChannelId { reason: ValidationReason::InvalidCharacters, .. }
    ));
    let short_multibyte = "aé";
    let err = ChannelId::new(short_multibyte).expect_err("non-ASCII is not allowed");
    assert!(matches!(
        err,
        LavaFlowError::InvalidChannelId { reason: ValidationReason::InvalidCharacters, .. }
    ));
}

#[test]
fn hostname_length_limit_is_inclusive() {
    let at_limit = "a".repeat(MAX_HOSTNAME_LEN);
    let location = ProcessLocation::new(&at_limit).expect("253 characters are accepted");
    assert_eq!(location.hostname().len(), MAX_HOSTNAME_LEN);
}

#[test]
fn uppercase_is_allowed_only_as_first_character() {
    let name = ProcessName::new("Gpu").expect("an uppercase first letter is allowed");
    assert_eq!(name.as_str(), "Gpu");
    let err = ProcessName::new("GPu").expect_err("later characters must be lowercase");
    assert!(matches!(
        err,
        LavaFlowError::InvalidProcessName { reason: ValidationReason::InvalidCharacters, .. }
    ));
}

#[test]
fn clone_keeps_names_and_locations() {
    let name = ProcessName::new("worker").expect("valid");
    assert_eq!(name.clone(), name);
    let location = ProcessLocation::with_ids("Host", Some(1), None).expect("valid");
    let copy = location.clone();
    assert_eq!(copy.hostname(), "host");
    assert_eq!(copy.node_id(), Some(1));
    assert_eq!(copy.device_id(), None);
}

#[test]
fn stored_hostname_is_accepted_again_unchanged() {
    let location = ProcessLocation::new("  Edge-Node.Local ").expect("valid hostname");
    assert_eq!(location.hostname(), "edge-node.local");
    let again = ProcessLocation::new(location.hostname()).expect("stored form is valid");
    assert_eq!(again.hostname(), location.hostname());
}

#[test]
fn scope_detection_is_symmetric() {
    let a = ProcessLocation::new("node-a").expect("valid hostname");
    let b = ProcessLocation::new("node-b").expect("valid hostname");
    assert_eq!(detect_scope(&a, &b), detect_scope(&b, &a));
    assert_eq!(detect_scope(&a, &a), CommunicationScope::Local);
    let padded = ProcessLocation::new("\tNODE-A\n").expect("valid hostname");
    assert_eq!(detect_scope(&a, &padded), CommunicationScope::Local);
}

#[test]
fn detected_hostname_is_trimmed_then_validated() {
    let location = ProcessLocation::from_detected_hostname(Ok("  Build-Host \n".to_string()))
        .expect("valid detected name");
    assert_eq!(location.hostname(), "build-host");
    let err = ProcessLocation::from_detected_hostname(Ok(" -gpu ".to_string()))
        .expect_err("invalid detected name");
    match err {
        LavaFlowError::InvalidHostname { value, reason } => {
            assert_eq!(value, "-gpu");
            assert_eq!(reason, ValidationReason::InvalidStartCharacter);
        }
        other => panic!("unexpected error {other:?}"),
    }
    let err = ProcessLocation::from_detected_hostname(Err("no name".to_string()))
        .expect_err("detection failed");
    assert!(matches!(err, LavaFlowError::HostnameDetection { detail } if detail == "no name"));
}
