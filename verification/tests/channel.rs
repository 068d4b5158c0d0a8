use lava_flow::channel::local::endpoint::{
    runtime_dir_path_with, u32_to_decimal, validate_private_runtime_dir,
    validate_public_runtime_dir, validate_runtime_dir, DirectoryStatus, EndpointAddress,
    ListenerSetup, SetupAction, SetupEvent,
};
use lava_flow::channel::local::envelope::prepare_envelope;
use lava_flow::channel::local::wire::{Access, FrameHeader, ProtocolLimits};
use lava_flow::channel::{
    accept_timeout_error, after_failed_connect, cancelled_result, check_cancelled, deadline_passed,
    BuildCancel,
    Builder, Frame, MetadataEncoding,
};
use lava_flow::error::{
    channel_transport_error, is_retryable_connect_error, is_retryable_connect_failure,
    CommunicationScope, IoErrorKind, LavaFlowError,
};
use lava_flow::memory::cpu::Allocator as CpuAllocator;
use lava_flow::memory::gpu::Allocator as GpuAllocator;
use lava_flow::types::{ChannelId, ProcessLocation};

const UID: u32 = 1000;

fn connect_error(kind: IoErrorKind) -> LavaFlowError {
    LavaFlowError::ChannelTransportOperation {
        operation: "connect",
        kind,
        message: "listener not ready".to_string(),
    }
}

fn directory(mode: u32) -> DirectoryStatus {
    DirectoryStatus { is_symlink: false, is_dir: true, owner_uid: UID, mode }
}

fn regular_file() -> DirectoryStatus {
    DirectoryStatus { is_symlink: false, is_dir: false, owner_uid: UID, mode: 0o600 }
}

fn runtime_dir_operation(err: &LavaFlowError) -> (&'static str, IoErrorKind) {
    match err {
        LavaFlowError::ChannelTransportOperation { operation, kind, .. } => (operation, *kind),
        other => panic!("unexpected error {other:?}"),
    }
}

#[test]
fn retry_classifier_accepts_only_startup_race_connect_errors() {
    assert!(is_retryable_connect_failure("connect", IoErrorKind::NotFound));
    assert!(is_retryable_connect_failure("connect", IoErrorKind::ConnectionRefused));
    assert!(!is_retryable_connect_failure("connect", IoErrorKind::PermissionDenied));
    assert!(!is_retryable_connect_failure("CreateFileW", IoErrorKind::NotFound));

    assert!(is_retryable_connect_error(&connect_error(IoErrorKind::NotFound)));
    assert!(!is_retryable_connect_error(&LavaFlowError::ChannelDisconnected));
}

#[test]
fn unix_endpoint_address_uses_private_runtime_directory() {
    let channel_id = ChannelId::new("channel-0").expect("channel id");
    let runtime_dir =
        runtime_dir_path_with(None, Some("/run/user/1000".to_string()), UID, true, None);
    let address = EndpointAddress::from_channel(&channel_id, Access::CurrentSession, runtime_dir, UID);

    assert!(
        address.as_str().contains("lava-flow"),
        "expected unix endpoint under lava-flow runtime directory, got {}",
        address.as_str()
    );
    assert!(
        address.as_str().ends_with("channel-0.sock"),
        "expected unix endpoint to end with socket filename, got {}",
        address.as_str()
    );
    assert_eq!(address.as_str(), "/run/user/1000/lava-flow/channel-0.sock");
}

#[test]
fn endpoint_address_uses_private_runtime_directory() {
    let channel_id = ChannelId::new("channel-0").expect("channel id");
    let runtime_dir = runtime_dir_path_with(None, None, UID, false, Some("/home/user".to_string()));
    let address = EndpointAddress::from_channel(&channel_id, Access::CurrentSession, runtime_dir, UID);

    assert!(
        address.as_str().contains("lava-flow"),
        "expected unix endpoint under lava-flow runtime directory, got {}",
        address.as_str()
    );
    assert!(
        address.as_str().ends_with("channel-0.sock"),
        "expected unix endpoint to end with socket filename, got {}",
        address.as_str()
    );
}

#[test]
fn endpoint_address_without_runtime_dir_uses_run_user() {
    let channel_id = ChannelId::new("channel-0").expect("channel id");
    let address = EndpointAddress::from_channel(&channel_id, Access::CurrentSession, None, 4321);
    assert_eq!(address.as_str(), "/run/user/4321/lava-flow/channel-0.sock");
}

#[test]
fn authenticated_users_endpoint_uses_system_temp_directory() {
    let channel_id = ChannelId::new("auth-users-channel").expect("channel id");
    let address = EndpointAddress::from_channel(
        &channel_id,
        Access::AuthenticatedUsers,
        Some("/tmp".to_string()),
        UID,
    );
    assert_eq!(address.as_str(), "/tmp/lava-flow-auth-users-channel.sock");
}

#[test]
fn endpoint_join_does_not_double_separators() {
    let channel_id = ChannelId::new("joined").expect("channel id");
    let address = EndpointAddress::from_channel(
        &channel_id,
        Access::CurrentSession,
        Some("/var/run/".to_string()),
        UID,
    );
    assert_eq!(address.as_str(), "/var/run/joined.sock");
}

#[test]
fn mod_local_endpoint_address_differs_by_channel_id() {
    let first = ChannelId::new("channel-0").expect("first channel id");
    let second = ChannelId::new("channel-1").expect("second channel id");

    let forward = EndpointAddress::from_channel(&first, Access::CurrentSession, None, UID);
    let reverse = EndpointAddress::from_channel(&second, Access::CurrentSession, None, UID);

    assert_ne!(forward, reverse);
}

#[test]
fn endpoint_address_differs_by_access_policy() {
    let channel_id = ChannelId::new("channel-0").expect("channel id");
    let private = EndpointAddress::from_channel(
        &channel_id,
        Access::CurrentSession,
        Some("/tmp".to_string()),
        UID,
    );
    let public = EndpointAddress::from_channel(
        &channel_id,
        Access::AuthenticatedUsers,
        Some("/tmp".to_string()),
        UID,
    );
    assert_ne!(private, public);
}

#[test]
fn unix_runtime_directory_prefers_explicit_override_over_xdg() {
    let path = runtime_dir_path_with(
        Some("/override/runtime".to_string()),
        Some("/xdg/runtime".to_string()),
        1000,
        false,
        Some("/home/test-user".to_string()),
    )
    .expect("resolve runtime dir");

    assert_eq!(path, "/override/runtime");
}

#[test]
fn runtime_directory_uses_xdg_when_no_override() {
    let path = runtime_dir_path_with(
        Some(String::new()),
        Some("/xdg/runtime".to_string()),
        1000,
        true,
        Some("/home/test-user".to_string()),
    )
    .expect("resolve runtime dir");

    assert_eq!(path, "/xdg/runtime/lava-flow");
}

#[test]
fn unix_runtime_directory_falls_back_to_home_when_xdg_and_run_user_are_unavailable() {
    let path = runtime_dir_path_with(None, None, 1000, false, Some("/home/test-user".to_string()))
        .expect("resolve home fallback runtime dir");

    assert_eq!(path, "/home/test-user/.local/run/lava-flow");
}

#[test]
fn unix_runtime_directory_uses_run_user_when_xdg_is_unavailable() {
    let path = runtime_dir_path_with(None, None, 1234, true, Some("/home/test-user".to_string()))
        .expect("resolve /run/user fallback runtime dir");

    assert_eq!(path, "/run/user/1234/lava-flow");
}

#[test]
fn runtime_directory_is_unresolved_without_any_source() {
    assert!(runtime_dir_path_with(None, Some(String::new()), 1, false, None).is_none());
}

#[test]
fn decimal_rendering_of_ids() {
    assert_eq!(u32_to_decimal(0), "0");
    assert_eq!(u32_to_decimal(1234), "1234");
    assert_eq!(u32_to_decimal(u32::MAX), "4294967295");
}

#[test]
fn unix_validate_runtime_dir_accepts_owned_private_directory() {
    validate_private_runtime_dir(directory(0o700), UID)
        .expect("owned private directory must be accepted");
}

#[test]
fn validate_runtime_dir_rejects_regular_file() {
    let err = validate_runtime_dir(regular_file(), UID)
        .expect_err("regular file must not be accepted as runtime dir");
    assert_eq!(
        runtime_dir_operation(&err),
        ("validate_runtime_dir", IoErrorKind::PermissionDenied)
    );
}

#[test]
fn validate_runtime_dir_rejects_foreign_owner() {
    let err = validate_runtime_dir(directory(0o700), UID + 1).expect_err("foreign owner");
    assert_eq!(runtime_dir_operation(&err).0, "validate_runtime_dir");
}

#[test]
fn unix_bind_rejects_symlinked_runtime_directory() {
    let link = DirectoryStatus { is_symlink: true, is_dir: true, owner_uid: UID, mode: 0o700 };
    let err = validate_private_runtime_dir(link, UID).expect_err("symlink must be rejected");
    assert_eq!(runtime_dir_operation(&err).0, "validate_runtime_dir");
}

#[test]
fn validate_private_runtime_dir_rejects_group_or_other_permissions() {
    let err = validate_private_runtime_dir(directory(0o755), UID)
        .expect_err("public runtime directory permissions must be rejected");
    assert_eq!(runtime_dir_operation(&err).0, "validate_runtime_dir");
}

#[test]
fn validate_public_runtime_dir_rejects_regular_file() {
    let err = validate_public_runtime_dir(regular_file(), UID, Access::AuthenticatedUsers)
        .expect_err("regular file must not be accepted as public runtime dir");
    assert_eq!(runtime_dir_operation(&err).0, "validate_runtime_dir");
}

#[test]
fn validate_public_runtime_dir_rejects_non_sticky_directory() {
    let err = validate_public_runtime_dir(directory(0o700), UID, Access::AuthenticatedUsers)
        .expect_err("non-sticky private dir must not be accepted as public runtime dir");
    assert_eq!(runtime_dir_operation(&err).0, "validate_runtime_dir");
}

#[test]
fn validate_public_runtime_dir_accepts_sticky_world_writable_directory() {
    let tmp = DirectoryStatus { is_symlink: false, is_dir: true, owner_uid: 0, mode: 0o1777 };
    validate_public_runtime_dir(tmp, UID, Access::AuthenticatedUsers).expect("like /tmp");
    assert!(validate_public_runtime_dir(tmp, UID, Access::CurrentSession).is_err());
}

#[test]
fn mod_frame_cpu_helpers_cover_size_and_variant_access() {
    let buffer = CpuAllocator::with_max_allocation_size(usize::MAX)
        .allocate(64)
        .expect("allocate cpu buffer");
    let frame = Frame::Cpu(buffer);
    assert_eq!(frame.size(), 64);
    assert_eq!(frame.header(), FrameHeader::Cpu { buffer_size: 64 });
    assert!(frame.into_cpu().is_some());

    let buffer = CpuAllocator::with_max_allocation_size(usize::MAX)
        .allocate(64)
        .expect("allocate cpu buffer");
    let frame = Frame::Cpu(buffer);
    assert!(frame.into_gpu().is_none());
}

#[test]
fn mod_frame_gpu_helpers_cover_size_and_variant_access() {
    let mut allocator = GpuAllocator::new();
    let buffer = allocator.allocate(64, 0).expect("allocate gpu buffer");
    let frame = Frame::Gpu(buffer);
    assert_eq!(frame.size(), 64);
    assert_eq!(frame.header(), FrameHeader::Gpu { buffer_size: 64, device_id: 0 });
    assert!(frame.into_gpu().is_some());

    let buffer = allocator.allocate(64, 0).expect("allocate gpu buffer");
    let frame = Frame::Gpu(buffer);
    assert!(frame.into_cpu().is_none());
}

#[test]
fn sender_builder_rejects_remote_scope() {
    let err = Builder::sender(
        ChannelId::new("remote-sender").expect("channel id"),
        ProcessLocation::new("node-0").expect("sender location"),
        ProcessLocation::new("node-1").expect("receiver location"),
    )
    .plan()
    .err()
    .expect("remote sender builder must fail");
    assert!(matches!(
        err,
        LavaFlowError::UnsupportedCommunicationScope { scope: CommunicationScope::Remote }
    ));
}

#[test]
fn receiver_builder_rejects_remote_scope() {
    let err = Builder::receiver(
        ChannelId::new("remote-receiver").expect("channel id"),
        ProcessLocation::new("node-0").expect("receiver location"),
        ProcessLocation::new("node-1").expect("sender location"),
    )
    .plan()
    .err()
    .expect("remote receiver builder must fail");
    assert!(matches!(
        err,
        LavaFlowError::UnsupportedCommunicationScope { scope: CommunicationScope::Remote }
    ));
}

#[test]
fn local_builder_plan_carries_overrides() {
    let (plan, encoding) = match Builder::sender(
        ChannelId::new("planned").expect("channel id"),
        ProcessLocation::new("node-0").expect("sender location"),
        ProcessLocation::new("NODE-0").expect("receiver location"),
    )
    .with_local_max_payload_size(63)
    .with_local_max_metadata_size(8)
    .with_authenticated_users_local_access()
    .with_metadata_encoding(MetadataEncoding::Cbor)
    .plan()
    {
        Ok(planned) => planned,
        Err(e) => panic!("local plan must succeed: {e:?}"),
    };
    assert_eq!(plan.limits, ProtocolLimits::with_max_sizes(63, 8));
    assert_eq!(plan.limits.max_payload_size(), 63);
    assert_eq!(plan.bootstrap.access, Access::AuthenticatedUsers);
    assert_eq!(plan.bootstrap.channel_id.as_str(), "planned");
    assert_eq!(encoding, MetadataEncoding::Cbor);
}

#[test]
fn local_receiver_plan_defaults_to_current_session() {
    let plan = match Builder::receiver(
        ChannelId::new("planned").expect("channel id"),
        ProcessLocation::new("node-0").expect("receiver location"),
        ProcessLocation::new("node-0").expect("sender location"),
    )
    .plan()
    {
        Ok(plan) => plan,
        Err(e) => panic!("local plan must succeed: {e:?}"),
    };
    assert_eq!(plan.bootstrap.access, Access::CurrentSession);
    assert_eq!(plan.limits, ProtocolLimits::default());
}

#[test]
fn build_cancel_is_observed_by_checks() {
    let cancel = BuildCancel::new();
    check_cancelled(Some(&cancel), "sender").expect("not cancelled yet");
    check_cancelled(None, "sender").expect("no handle");
    let shared = cancel.clone();
    shared.cancel();
    assert!(cancel.is_cancelled());
    let err = check_cancelled(Some(&cancel), "receiver").expect_err("cancelled");
    assert!(matches!(err, LavaFlowError::ChannelBuildCancelled { endpoint: "receiver" }));
}

#[test]
fn deadline_only_passes_with_a_timeout() {
    assert!(!deadline_passed(1_000, None));
    assert!(!deadline_passed(999, Some(1_000)));
    assert!(deadline_passed(1_000, Some(1_000)));
}

#[test]
fn receiver_builder_build_with_timeout_reports_connect_timeout() {
    after_failed_connect(connect_error(IoErrorKind::NotFound), false, String::new())
        .expect("start-up race is retried");
    let err = after_failed_connect(
        connect_error(IoErrorKind::ConnectionRefused),
        true,
        "timed out".to_string(),
    )
    .expect_err("receiver connect should time out");
    assert!(matches!(
        err,
        LavaFlowError::ChannelTransportOperation {
            operation: "connect",
            kind: IoErrorKind::TimedOut,
            ..
        }
    ));
    let err = after_failed_connect(connect_error(IoErrorKind::PermissionDenied), false, String::new())
        .expect_err("other failures end the build");
    assert!(matches!(
        err,
        LavaFlowError::ChannelTransportOperation { kind: IoErrorKind::PermissionDenied, .. }
    ));
}

#[test]
fn sender_builder_build_with_timeout_reports_accept_timeout() {
    let err = accept_timeout_error("no receiver".to_string());
    assert!(matches!(
        err,
        LavaFlowError::ChannelTransportOperation {
            operation: "accept",
            kind: IoErrorKind::TimedOut,
            ..
        }
    ));
}

#[test]
fn mod_receiver_reports_disconnect_when_sender_is_dropped() {
    let err = channel_transport_error("read_message_envelope", IoErrorKind::UnexpectedEof, String::new());
    assert!(matches!(err, LavaFlowError::ChannelDisconnected));
}

#[test]
fn sender_reports_disconnect_when_receiver_is_dropped() {
    let err = channel_transport_error("write_message_envelope", IoErrorKind::BrokenPipe, String::new());
    assert!(matches!(err, LavaFlowError::ChannelDisconnected));
    let err = channel_transport_error("read_import_ack", IoErrorKind::ConnectionReset, String::new());
    assert!(matches!(err, LavaFlowError::ChannelDisconnected));
}

#[test]
fn other_transport_failures_keep_their_operation() {
    let err = channel_transport_error("sendmsg", IoErrorKind::PermissionDenied, "denied".to_string());
    assert!(matches!(
        err,
        LavaFlowError::ChannelTransportOperation {
            operation: "sendmsg",
            kind: IoErrorKind::PermissionDenied,
            ..
        }
    ));
}

fn drive_setup(
    access: Access,
    statuses: &[DirectoryStatus],
    failure: Option<(SetupAction, IoErrorKind)>,
) -> Result<Vec<SetupAction>, LavaFlowError> {
    let (mut setup, mut action) = ListenerSetup::start(true, access, UID)?;
    let mut seen = vec![action];
    let mut statuses = statuses.iter();
    while action != SetupAction::Finished {
        let event = match failure {
            Some((failing, kind)) if failing == action => {
                SetupEvent::Failed(kind, "os error".to_string())
            }
            _ => match action {
                SetupAction::InspectDir => SetupEvent::Status(*statuses.next().expect("status")),
                _ => SetupEvent::Completed,
            },
        };
        action = setup.advance(event)?;
        seen.push(action);
    }
    assert!(setup.is_finished());
    Ok(seen)
}

#[test]
fn private_listener_setup_checks_directory_before_and_after_restricting_it() {
    let actions = drive_setup(Access::CurrentSession, &[directory(0o755), directory(0o700)], None)
        .expect("setup succeeds");
    assert_eq!(
        actions,
        vec![
            SetupAction::CreateDirAll,
            SetupAction::InspectDir,
            SetupAction::SetDirMode(0o700),
            SetupAction::InspectDir,
            SetupAction::RemoveStaleSocket,
            SetupAction::Bind,
            SetupAction::Finished,
        ]
    );
}

#[test]
fn authenticated_users_bind_sets_socket_permissions_for_local_users() {
    let shared = DirectoryStatus { is_symlink: false, is_dir: true, owner_uid: 0, mode: 0o1777 };
    let actions = drive_setup(Access::AuthenticatedUsers, &[shared], None).expect("setup succeeds");
    assert_eq!(
        actions,
        vec![
            SetupAction::CreateDirAll,
            SetupAction::InspectDir,
            SetupAction::RemoveStaleSocket,
            SetupAction::Bind,
            SetupAction::SetSocketMode(0o666),
            SetupAction::Finished,
        ]
    );
}

#[test]
fn missing_stale_socket_is_not_an_error() {
    let actions = drive_setup(
        Access::CurrentSession,
        &[directory(0o700), directory(0o700)],
        Some((SetupAction::RemoveStaleSocket, IoErrorKind::NotFound)),
    )
    .expect("nothing to remove");
    assert_eq!(actions.last(), Some(&SetupAction::Finished));
}

#[test]
fn unix_bind_reports_remove_file_failure_when_socket_path_is_directory() {
    let err = drive_setup(
        Access::CurrentSession,
        &[directory(0o700), directory(0o700)],
        Some((SetupAction::RemoveStaleSocket, IoErrorKind::Other)),
    )
    .expect_err("a directory at the socket path cannot be removed");
    assert_eq!(runtime_dir_operation(&err).0, "remove_file");
}

#[test]
fn ensure_endpoint_dir_exists_reports_create_dir_all_failure() {
    let err = drive_setup(
        Access::AuthenticatedUsers,
        &[],
        Some((SetupAction::CreateDirAll, IoErrorKind::Other)),
    )
    .expect_err("file parent must make create_dir_all fail");
    assert_eq!(runtime_dir_operation(&err).0, "create_dir_all");
}

#[test]
fn bind_reports_os_bind_failure_for_too_long_socket_path() {
    let err = drive_setup(
        Access::CurrentSession,
        &[directory(0o700), directory(0o700)],
        Some((SetupAction::Bind, IoErrorKind::InvalidInput)),
    )
    .expect_err("overlong socket path must fail at bind");
    assert_eq!(runtime_dir_operation(&err).0, "bind");
}

#[test]
fn listener_setup_rejects_foreign_directory_before_changing_it() {
    let foreign = DirectoryStatus { is_symlink: false, is_dir: true, owner_uid: UID + 1, mode: 0o700 };
    let err = drive_setup(Access::CurrentSession, &[foreign], None).expect_err("foreign owner");
    assert_eq!(
        runtime_dir_operation(&err),
        ("validate_runtime_dir", IoErrorKind::PermissionDenied)
    );
}

#[test]
fn unix_ensure_endpoint_dir_exists_rejects_path_without_parent_directory() {
    let err = ListenerSetup::start(false, Access::CurrentSession, UID)
        .err()
        .expect("root path must be rejected because it has no parent endpoint directory");
    assert_eq!(runtime_dir_operation(&err), ("create_dir_all", IoErrorKind::InvalidInput));
}

fn plan_limits(payload: usize, metadata: usize) -> ProtocolLimits {
    match Builder::sender(
        ChannelId::new("builder-local-limits").expect("channel id"),
        ProcessLocation::new("node-0").expect("sender location"),
        ProcessLocation::new("node-0").expect("receiver location"),
    )
    .with_local_max_payload_size(payload)
    .with_local_max_metadata_size(metadata)
    .plan()
    {
        Ok((plan, _)) => plan.limits,
        Err(e) => panic!("local plan must succeed: {e:?}"),
    }
}

#[test]
fn local_builder_sender_limit_override_rejects_oversized_payload() {
    let limits = plan_limits(8, 0);
    let err = prepare_envelope(FrameHeader::Cpu { buffer_size: 64 }, b"{\"values\":{}}", limits)
        .err()
        .expect("oversized payload must be rejected");
    assert_eq!(runtime_dir_operation(&err).0, "write_message_envelope");
}

#[test]
fn local_builder_metadata_limit_override_rejects_oversized_metadata() {
    let limits = plan_limits(0, 8);
    let err = prepare_envelope(FrameHeader::Cpu { buffer_size: 64 }, b"{\"values\":{\"k\":1}}", limits)
        .err()
        .expect("oversized metadata must be rejected");
    assert_eq!(runtime_dir_operation(&err).0, "write_message_envelope");
}

#[test]
fn local_sender_and_receiver_builders_use_hostname_defaults() {
    let channel_id = ChannelId::new("builder-hostname-defaults").expect("channel id");
    let sender = Builder::local_sender(channel_id.clone()).expect("local sender");
    let receiver = Builder::local_receiver(channel_id).expect("local receiver");
    assert!(sender.plan().is_ok());
    let plan = match receiver.plan() {
        Ok(plan) => plan,
        Err(e) => panic!("local plan must succeed: {e:?}"),
    };
    assert_eq!(plan.bootstrap.access, Access::CurrentSession);
}

#[test]
fn local_builder_mixed_access_policies_do_not_rendezvous() {
    let channel_id = ChannelId::new("builder-mixed-access").expect("channel id");
    let sender_address = EndpointAddress::from_channel(
        &channel_id,
        Access::AuthenticatedUsers,
        Some("/tmp".to_string()),
        UID,
    );
    let receiver_address = EndpointAddress::from_channel(
        &channel_id,
        Access::CurrentSession,
        Some("/run/user/1000/lava-flow".to_string()),
        UID,
    );
    assert_ne!(sender_address, receiver_address);
}

#[test]
fn sender_builder_build_or_cancelled_reports_cancellation() {
    let cancel = BuildCancel::new();
    let build_cancel = cancel.clone();
    cancel.cancel();
    let err = check_cancelled(Some(&build_cancel), "sender").expect_err("cancelled");
    assert!(matches!(err, LavaFlowError::ChannelBuildCancelled { endpoint: "sender" }));
}

#[test]
fn receiver_builder_build_or_cancelled_reports_cancellation() {
    let cancel = BuildCancel::new();
    cancel.clone().cancel();
    let err = check_cancelled(Some(&cancel), "receiver").expect_err("cancelled");
    assert!(matches!(err, LavaFlowError::ChannelBuildCancelled { endpoint: "receiver" }));
}

#[test]
fn receiver_builder_build_with_timeout_allows_delayed_sender_startup() {
    for kind in [IoErrorKind::NotFound, IoErrorKind::ConnectionRefused] {
        after_failed_connect(connect_error(kind), false, String::new())
            .expect("a missing listener is retried before the deadline");
    }
    assert!(!deadline_passed(10, Some(1_000_000)));
}

#[test]
fn unix_runtime_directory_is_created_with_0700_permissions() {
    let actions = drive_setup(Access::CurrentSession, &[directory(0o775), directory(0o700)], None)
        .expect("setup succeeds");
    assert!(actions.contains(&SetupAction::SetDirMode(0o700)));
}

#[test]
fn cancelled_flag_ends_the_build() {
    assert!(cancelled_result(false, "sender").is_ok());
    let err = cancelled_result(true, "sender").expect_err("cancelled");
    assert!(matches!(err, LavaFlowError::ChannelBuildCancelled { endpoint: "sender" }));
}

#[test]
fn endpoint_directory_follows_access_policy() {
    assert_eq!(
        lava_flow::channel::local::endpoint::endpoint_directory(Access::CurrentSession, Some("/run/user/1/lava-flow".to_string()), "/tmp".to_string()),
        Some("/run/user/1/lava-flow".to_string())
    );
    assert_eq!(lava_flow::channel::local::endpoint::endpoint_directory(Access::CurrentSession, None, "/tmp".to_string()), None);
    assert_eq!(
        lava_flow::channel::local::endpoint::endpoint_directory(Access::AuthenticatedUsers, None, "/tmp".to_string()),
        Some("/tmp".to_string())
    );
}
