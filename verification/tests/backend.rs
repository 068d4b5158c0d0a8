use lava_flow::channel::local::pipe_access::{
    acl_layout, local_pipe_client_access_mask, PipeAccessMaskBuilder, FILE_READ_ATTRIBUTES,
    FILE_READ_DATA, FILE_READ_EA, FILE_WRITE_DATA, READ_CONTROL, SYNCHRONIZE,
};
use lava_flow::channel::Frame;
use lava_flow::channels::ChannelMetadata;
use lava_flow::error::{AllocationReason, LavaFlowError, ValidationReason};
use lava_flow::memory::cpu::Allocator as CpuAllocator;
use lava_flow::memory::gpu::Allocator as GpuAllocator;
use lava_flow::memory::shm::{choose_random_u64, is_full_read, shm_name};
use lava_flow::memory::vulkan::{
    ensure_min_vulkan_version, find_memory_type_index, find_queue_family_index,
    make_api_version, memory_type_for_requirements, package_version, resolve_memory_type_index,
    select_physical_device, validate_gpu_request, vulkan_operation_error, QueueFamilyInfo,
    API_VERSION_1_0, API_VERSION_1_2, MEMORY_PROPERTY_HOST_COHERENT,
    MEMORY_PROPERTY_HOST_VISIBLE, QUEUE_COMPUTE, QUEUE_GRAPHICS,
};
use lava_flow::text::u64_to_decimal;

const DEVICE_LOCAL: u32 = 1;
const HOST_MEMORY: u32 = MEMORY_PROPERTY_HOST_VISIBLE | MEMORY_PROPERTY_HOST_COHERENT;

fn memory_types(flags: &[u32]) -> [u32; 32] {
    let mut types = [0u32; 32];
    types[..flags.len()].copy_from_slice(flags);
    types
}

fn vulkan_operation(err: &LavaFlowError) -> (&'static str, String) {
    match err {
        LavaFlowError::VulkanOperation { operation, details } => (operation, details.clone()),
        other => panic!("unexpected error {other:?}"),
    }
}

#[test]
fn find_memory_type_index_returns_none_when_bits_do_not_match() {
    let types = memory_types(&[HOST_MEMORY]);
    let index = find_memory_type_index(&types, 1, 0, MEMORY_PROPERTY_HOST_VISIBLE);
    assert_eq!(index, None);
}

#[test]
fn find_memory_type_index_returns_matching_slot() {
    let types = memory_types(&[DEVICE_LOCAL, HOST_MEMORY]);
    let index = find_memory_type_index(&types, 2, 0b10, MEMORY_PROPERTY_HOST_VISIBLE);
    assert_eq!(index, Some(1));
}

#[test]
fn find_memory_type_index_prefers_the_first_match_within_count() {
    let types = memory_types(&[HOST_MEMORY, HOST_MEMORY, HOST_MEMORY]);
    assert_eq!(find_memory_type_index(&types, 3, 0b110, HOST_MEMORY), Some(1));
    assert_eq!(find_memory_type_index(&types, 1, 0b110, HOST_MEMORY), None);
}

#[test]
fn resolve_memory_type_index_reports_missing_host_memory() {
    let types = memory_types(&[DEVICE_LOCAL, MEMORY_PROPERTY_HOST_VISIBLE]);
    let err = resolve_memory_type_index(&types, 2, 0b11).expect_err("no coherent type");
    assert_eq!(
        vulkan_operation(&err),
        ("find_memory_type_index", "no host-visible memory type".to_string())
    );
    let types = memory_types(&[DEVICE_LOCAL, HOST_MEMORY | DEVICE_LOCAL]);
    assert_eq!(resolve_memory_type_index(&types, 2, 0b11).expect("second type"), 1);
}

#[test]
fn memory_requirements_must_cover_the_request() {
    let types = memory_types(&[HOST_MEMORY]);
    let err = memory_type_for_requirements(4096, 1024, &types, 1, 1).expect_err("too small");
    assert_eq!(
        vulkan_operation(&err),
        (
            "get_buffer_memory_requirements",
            "allocation size 1024 smaller than requested 4096".to_string()
        )
    );
    assert_eq!(memory_type_for_requirements(4096, 8192, &types, 1, 1).expect("fits"), 0);
}

#[test]
fn gpu_request_of_zero_bytes_is_refused() {
    let err = validate_gpu_request(0).expect_err("zero size");
    assert!(matches!(
        err,
        LavaFlowError::InvalidAllocationRequest { size: 0, reason: AllocationReason::ZeroSize }
    ));
    validate_gpu_request(1).expect("one byte");
}

#[test]
fn vulkan_operation_error_keeps_operation_name() {
    let err = vulkan_operation_error("unit_test", "details".to_string());
    assert!(matches!(
        err,
        LavaFlowError::VulkanOperation { operation, .. } if operation == "unit_test"
    ));
}

#[test]
fn ensure_min_vulkan_version_rejects_older_versions() {
    let api_version_1_1 = make_api_version(0, 1, 1, 0);
    let err = ensure_min_vulkan_version(api_version_1_1).expect_err("vulkan 1.1 should be rejected");
    assert_eq!(
        vulkan_operation(&err),
        ("check_instance_version", "requires Vulkan 1.2+, found 1.1.0".to_string())
    );
}

#[test]
fn ensure_min_vulkan_version_accepts_1_2() {
    ensure_min_vulkan_version(API_VERSION_1_2).expect("vulkan 1.2 should be accepted");
    ensure_min_vulkan_version(make_api_version(0, 1, 3, 250)).expect("vulkan 1.3");
}

#[test]
fn api_versions_pack_as_the_vulkan_headers_do() {
    assert_eq!(make_api_version(0, 1, 0, 0), API_VERSION_1_0);
    assert_eq!(make_api_version(0, 1, 2, 0), API_VERSION_1_2);
    assert_eq!(make_api_version(0, 1, 2, 3), (1 << 22) | (2 << 12) | 3);
    let err = ensure_min_vulkan_version(make_api_version(0, 1, 0, 17)).expect_err("1.0");
    assert_eq!(vulkan_operation(&err).1, "requires Vulkan 1.2+, found 1.0.17");
}

#[test]
fn package_version_parses_numbers_and_defaults_to_zero() {
    assert_eq!(package_version("0", "1", "0"), make_api_version(0, 0, 1, 0));
    assert_eq!(package_version("+2", "x", ""), make_api_version(0, 2, 0, 0));
    assert_eq!(package_version("4294967296", "7", "9"), make_api_version(0, 0, 7, 9));
}

#[test]
fn select_physical_device_returns_requested_item() {
    assert_eq!(select_physical_device(3, 2).expect("third device"), 2);
}

#[test]
fn select_physical_device_rejects_unknown_requested_index() {
    let err = select_physical_device(1, 4).expect_err("unknown device");
    assert!(matches!(err, LavaFlowError::GpuDeviceNotFound { device_id: 4 }));
    let err = select_physical_device(0, 0).expect_err("no devices");
    assert!(matches!(err, LavaFlowError::GpuBackendUnavailable));
}

#[test]
fn queue_family_selection_skips_empty_and_transfer_only_families() {
    let families = [
        QueueFamilyInfo { queue_count: 0, queue_flags: QUEUE_GRAPHICS },
        QueueFamilyInfo { queue_count: 4, queue_flags: 0x4 },
        QueueFamilyInfo { queue_count: 1, queue_flags: QUEUE_COMPUTE },
    ];
    assert_eq!(find_queue_family_index(&families), Some(2));
    assert_eq!(find_queue_family_index(&families[..2]), None);
}

#[test]
fn shm_names_carry_pid_counter_and_padded_random_part() {
    assert_eq!(shm_name(42, 7, 0xab), "/lava-flow-42-7-00000000000000ab");
    assert_eq!(
        shm_name(u32::MAX, u64::MAX, u64::MAX),
        "/lava-flow-4294967295-18446744073709551615-ffffffffffffffff"
    );
    assert_eq!(u64_to_decimal(1_000_000), "1000000");
}

#[test]
fn random_part_prefers_getrandom_then_urandom_then_clock() {
    assert_eq!(choose_random_u64(Some((8, 1)), Some((8, 2)), 3, 4), 1);
    assert_eq!(choose_random_u64(Some((4, 1)), Some((8, 2)), 3, 4), 2);
    assert_eq!(choose_random_u64(None, Some((7, 2)), 3, 4), 3 ^ (4u64 << 32));
}

#[test]
fn local_pipe_client_access_mask_grants_exactly_the_client_rights() {
    let mask = local_pipe_client_access_mask();
    assert_eq!(
        mask.bits(),
        FILE_READ_DATA | FILE_READ_ATTRIBUTES | FILE_READ_EA | FILE_WRITE_DATA | READ_CONTROL
            | SYNCHRONIZE
    );
    assert_eq!(mask.bits(), 0x0012_008b);
    assert_eq!(PipeAccessMaskBuilder::new().build().bits(), 0);
    assert_eq!(PipeAccessMaskBuilder::new().write_data().build().bits(), FILE_WRITE_DATA);
}

#[test]
fn acl_layout_rounds_up_to_whole_words() {
    // A logon-session SID has five sub-authorities: 8 + 4 * 5 bytes.
    assert_eq!(acl_layout(28), (44, 11));
    assert_eq!(acl_layout(13), (29, 8));
}

#[test]
fn frames_convert_from_buffers() {
    let cpu = CpuAllocator::with_max_allocation_size(usize::MAX).allocate(16).expect("cpu");
    let frame: Frame = cpu.into();
    assert!(matches!(frame, Frame::Cpu(_)));
    let gpu = GpuAllocator::new().allocate(16, 0).expect("gpu");
    let frame = Frame::from(gpu);
    assert_eq!(frame.size(), 16);
    assert!(matches!(frame, Frame::Gpu(_)));
}

struct SizedMeta {
    used: usize,
}

impl ChannelMetadata for SizedMeta {
    fn used_size(&self) -> usize {
        self.used
    }
}

#[test]
fn message_meta_used_size_returns_stored_value() {
    let meta = SizedMeta { used: 17 };
    assert_eq!(meta.used_size(), 17);
}

#[test]
fn reason_messages_match_their_variants() {
    assert_eq!(ValidationReason::Empty.message(), "must not be empty");
    assert_eq!(ValidationReason::HostnameTooLong.message(), "must be at most 253 characters");
    assert_eq!(
        AllocationReason::ExceedsMaxSize.message(),
        "allocation size exceeds maximum supported size"
    );
}

#[test]
fn only_eight_byte_reads_are_full() {
    assert!(is_full_read(Some((8, 0))));
    assert!(!is_full_read(Some((7, 0))));
    assert!(!is_full_read(None));
}
