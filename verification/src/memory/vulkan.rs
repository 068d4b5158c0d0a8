//! The decisions of the Vulkan backend, over the plain values the driver reports: the API
//! version check, the application version, and the choice of device, queue family and
//! memory type.

use vstd::prelude::*;
use crate::error::{LavaFlowError, Result};
use crate::memory::cpu::{decimal_digits, decimal_value, parse_usize, parse_usize_decimal};
use crate::text::{decimal_string, is_ascii_digit, push_decimal, push_str};

verus! {

/// `VK_MAKE_API_VERSION`: the variant in bits 29 to 31, the major version in bits 22 to 28,
/// the minor version in bits 12 to 21 and the patch in bits 0 to 11.
pub open spec fn spec_make_api_version(variant: u32, major: u32, minor: u32, patch: u32) -> u32 {
    (variant << 29u32) | (major << 22u32) | (minor << 12u32) | patch
}

/// `VK_API_VERSION_MAJOR`.
pub open spec fn spec_api_version_major(version: u32) -> u32 {
    (version >> 22u32) & 0x7fu32
}

/// `VK_API_VERSION_MINOR`.
pub open spec fn spec_api_version_minor(version: u32) -> u32 {
    (version >> 12u32) & 0x3ffu32
}

/// `VK_API_VERSION_PATCH`.
pub open spec fn spec_api_version_patch(version: u32) -> u32 {
    version & 0xfffu32
}

/// Packs a Vulkan version number.
pub fn make_api_version(variant: u32, major: u32, minor: u32, patch: u32) -> (r: u32)
    ensures
        r == spec_make_api_version(variant, major, minor, patch),
{
    (variant << 29u32) | (major << 22u32) | (minor << 12u32) | patch
}

/// Vulkan 1.0, what a loader that cannot report its version supports.
pub const API_VERSION_1_0: u32 = 4194304;

/// Vulkan 1.2, the lowest instance version the backend accepts.
pub const API_VERSION_1_2: u32 = 4202496;

/// The two constants are the packed versions they name.
pub proof fn lemma_api_version_constants()
    ensures
        API_VERSION_1_0 == spec_make_api_version(0, 1, 0, 0),
        API_VERSION_1_2 == spec_make_api_version(0, 1, 2, 0),
{
    assert(spec_make_api_version(0, 1, 0, 0) == 4194304u32) by (bit_vector);
    assert(spec_make_api_version(0, 1, 2, 0) == 4202496u32) by (bit_vector);
}

/// Error of a failed Vulkan operation.
pub fn vulkan_operation_error(operation: &'static str, details: String) -> (e: LavaFlowError)
    ensures
        e == (LavaFlowError::VulkanOperation { operation, details }),
{
    LavaFlowError::VulkanOperation { operation, details }
}

/// The message of a refused instance version: `requires Vulkan 1.2+, found M.m.p`.
pub open spec fn old_version_message(version: u32) -> Seq<char> {
    "requires Vulkan 1.2+, found "@ + decimal_string(spec_api_version_major(version) as nat) + "."@
        + decimal_string(spec_api_version_minor(version) as nat) + "."@ + decimal_string(
        spec_api_version_patch(version) as nat,
    )
}

/// Accepts an instance of Vulkan 1.2 or later.
pub fn ensure_min_vulkan_version(instance_api: u32) -> (r: Result<()>)
    ensures
        r is Ok <==> instance_api >= API_VERSION_1_2,
        r matches Err(e) ==> (e matches LavaFlowError::VulkanOperation { operation, details }
            && operation@ == "check_instance_version"@ && details@ == old_version_message(
            instance_api,
        )),
{
    if instance_api < API_VERSION_1_2 {
        let mut details = String::new();
        push_str(&mut details, "requires Vulkan 1.2+, found ");
        push_decimal(&mut details, ((instance_api >> 22u32) & 0x7fu32) as u64);
        push_str(&mut details, ".");
        push_decimal(&mut details, ((instance_api >> 12u32) & 0x3ffu32) as u64);
        push_str(&mut details, ".");
        push_decimal(&mut details, (instance_api & 0xfffu32) as u64);
        proof {
            reveal_strlit("requires Vulkan 1.2+, found ");
            reveal_strlit(".");
            assert(details@ =~= old_version_message(instance_api));
        }
        return Err(vulkan_operation_error("check_instance_version", details));
    }
    Ok(())
}

/// What `str::parse::<u32>` returns, with `0` for text that is not a `u32`.
pub open spec fn parse_u32_or_zero(s: Seq<char>) -> u32 {
    let d = decimal_digits(s);
    if d.len() > 0 && (forall|i: int| 0 <= i < d.len() ==> is_ascii_digit(#[trigger] d[i]))
        && decimal_value(d) <= u32::MAX {
        decimal_value(d) as u32
    } else {
        0
    }
}

fn parse_u32_or_zero_exec(s: &str) -> (r: u32)
    ensures
        r == parse_u32_or_zero(s@),
{
    match parse_usize_decimal(s) {
        Some(v) => {
            if v <= 0xffff_ffffusize {
                v as u32
            } else {
                0
            }
        },
        None => {
            proof {
                let d = decimal_digits(s@);
                if d.len() > 0 && (forall|i: int| 0 <= i < d.len() ==> is_ascii_digit(#[trigger] d[i]))
                    && decimal_value(d) <= u32::MAX {
                    assert(parse_usize(s@) is Some);
                }
            }
            0
        },
    }
}

/// The application version announced to the driver: the package's major, minor and patch
/// numbers, each `0` when its text is not a number.
pub fn package_version(major: &str, minor: &str, patch: &str) -> (r: u32)
    ensures
        r == spec_make_api_version(
            0,
            parse_u32_or_zero(major@),
            parse_u32_or_zero(minor@),
            parse_u32_or_zero(patch@),
        ),
{
    let major = parse_u32_or_zero_exec(major);
    let minor = parse_u32_or_zero_exec(minor);
    let patch = parse_u32_or_zero_exec(patch);
    make_api_version(0, major, minor, patch)
}

/// Picks the physical device with the requested index among `device_count` devices.
pub fn select_physical_device(device_count: usize, requested_device_id: u32) -> (r: Result<usize>)
    ensures
        device_count == 0 ==> (r matches Err(e) && e is GpuBackendUnavailable),
        device_count > 0 && requested_device_id >= device_count ==> (r matches Err(e) && e
            == (LavaFlowError::GpuDeviceNotFound { device_id: requested_device_id })),
        r is Ok <==> requested_device_id < device_count,
        r matches Ok(i) ==> i == requested_device_id,
{
    if device_count == 0 {
        return Err(LavaFlowError::GpuBackendUnavailable);
    }
    if (requested_device_id as usize) < device_count {
        Ok(requested_device_id as usize)
    } else {
        Err(LavaFlowError::GpuDeviceNotFound { device_id: requested_device_id })
    }
}

/// `VK_QUEUE_GRAPHICS_BIT`.
pub const QUEUE_GRAPHICS: u32 = 1;

/// `VK_QUEUE_COMPUTE_BIT`.
pub const QUEUE_COMPUTE: u32 = 2;

/// What the driver reports of a queue family.
#[derive(Copy, Clone, Debug, PartialEq, Eq, Structural)]
pub struct QueueFamilyInfo {
    pub queue_count: u32,
    pub queue_flags: u32,
}

/// A queue family the backend can submit to: it has queues, and they do compute or
/// graphics work.
pub open spec fn queue_family_usable(f: QueueFamilyInfo) -> bool {
    f.queue_count > 0 && f.queue_flags & (QUEUE_COMPUTE | QUEUE_GRAPHICS) != 0
}

/// Index of the first usable queue family, if there is one and it fits in a `u32`.
pub fn find_queue_family_index(families: &[QueueFamilyInfo]) -> (r: Option<u32>)
    ensures
        r matches Some(i) ==> i < families@.len() && queue_family_usable(families@[i as int])
            && forall|j: int| 0 <= j < i ==> !queue_family_usable(#[trigger] families@[j]),
        r is None ==> forall|j: int|
            0 <= j < families@.len() && j <= u32::MAX ==> !queue_family_usable(#[trigger] families@[j]),
{
    let mut i: usize = 0;
    while i < families.len()
        invariant
            i <= families@.len(),
            forall|j: int| 0 <= j < i ==> !queue_family_usable(#[trigger] families@[j]),
        decreases families@.len() - i,
    {
        let f = families[i];
        if f.queue_count > 0 && f.queue_flags & (QUEUE_COMPUTE | QUEUE_GRAPHICS) != 0 {
            if i <= 0xffff_ffffusize {
                return Some(i as u32);
            } else {
                return None;
            }
        }
        i = i + 1;
    }
    None
}

/// `VK_MEMORY_PROPERTY_HOST_VISIBLE_BIT`.
pub const MEMORY_PROPERTY_HOST_VISIBLE: u32 = 2;

/// `VK_MEMORY_PROPERTY_HOST_COHERENT_BIT`.
pub const MEMORY_PROPERTY_HOST_COHERENT: u32 = 4;

/// Memory type `j` may back a resource whose allowed types are `type_bits` and has every
/// property in `required`.
pub open spec fn memory_type_suitable(property_flags: Seq<u32>, type_bits: u32, required: u32, j: int) -> bool {
    &&& 0 <= j < 32
    &&& type_bits & (1u32 << (j as u32)) != 0
    &&& property_flags[j] & required == required
}

/// `i` is the first of the `count` memory types that is suitable.
pub open spec fn first_suitable_memory_type(
    property_flags: Seq<u32>,
    count: u32,
    type_bits: u32,
    required: u32,
    i: int,
) -> bool {
    &&& 0 <= i < count
    &&& memory_type_suitable(property_flags, type_bits, required, i)
    &&& forall|j: int| 0 <= j < i ==> !memory_type_suitable(property_flags, type_bits, required, j)
}

/// None of the `count` memory types is suitable.
pub open spec fn no_suitable_memory_type(property_flags: Seq<u32>, count: u32, type_bits: u32, required: u32) -> bool {
    forall|j: int| 0 <= j < count ==> !memory_type_suitable(property_flags, type_bits, required, j)
}

/// The properties every memory type of a CPU-visible allocation needs.
pub open spec fn host_memory_properties() -> u32 {
    MEMORY_PROPERTY_HOST_VISIBLE | MEMORY_PROPERTY_HOST_COHERENT
}

/// Index of the first of the `memory_type_count` memory types that is allowed by `type_bits`
/// and has all the `required_flags` properties. `property_flags` holds the property flags of
/// the device's memory types.
pub fn find_memory_type_index(
    property_flags: &[u32],
    memory_type_count: u32,
    type_bits: u32,
    required_flags: u32,
) -> (r: Option<u32>)
    requires
        memory_type_count <= property_flags@.len(),
    ensures
        r matches Some(i) ==> first_suitable_memory_type(
            property_flags@,
            memory_type_count,
            type_bits,
            required_flags,
            i as int,
        ),
        r is None ==> no_suitable_memory_type(property_flags@, memory_type_count, type_bits, required_flags),
{
    let count = memory_type_count as usize;
    let mut i: usize = 0;
    while i < count
        invariant
            count == memory_type_count,
            count <= property_flags@.len(),
            i <= count,
            forall|j: int| 0 <= j < i ==> !memory_type_suitable(
                property_flags@,
                type_bits,
                required_flags,
                j,
            ),
        decreases count - i,
    {
        if i < 32 {
            let bit: u32 = 1u32 << (i as u32);
            if type_bits & bit != 0 && property_flags[i] & required_flags == required_flags {
                return Some(i as u32);
            }
        }
        i = i + 1;
    }
    None
}

/// Picks a host-visible, host-coherent memory type for an allocation, so that the CPU sees
/// writes without explicit flushes.
pub fn resolve_memory_type_index(property_flags: &[u32], memory_type_count: u32, type_bits: u32) -> (r:
    Result<u32>)
    requires
        memory_type_count <= property_flags@.len(),
    ensures
        r matches Ok(i) ==> first_suitable_memory_type(
            property_flags@,
            memory_type_count,
            type_bits,
            host_memory_properties(),
            i as int,
        ),
        r is Err <==> no_suitable_memory_type(
            property_flags@,
            memory_type_count,
            type_bits,
            host_memory_properties(),
        ),
        r matches Err(e) ==> (e matches LavaFlowError::VulkanOperation { operation, details }
            && operation@ == "find_memory_type_index"@ && details@ == "no host-visible memory type"@),
{
    match find_memory_type_index(
        property_flags,
        memory_type_count,
        type_bits,
        MEMORY_PROPERTY_HOST_VISIBLE | MEMORY_PROPERTY_HOST_COHERENT,
    ) {
        Some(i) => Ok(i),
        None => Err(
            vulkan_operation_error(
                "find_memory_type_index",
                crate::text::owned("no host-visible memory type"),
            ),
        ),
    }
}


/// Checks a GPU allocation request before any driver object is created: zero bytes are
/// refused.
pub fn validate_gpu_request(size: usize) -> (r: Result<()>)
    ensures
        r is Ok <==> size > 0,
        r matches Err(e) ==> e == (LavaFlowError::InvalidAllocationRequest {
            size,
            reason: crate::error::AllocationReason::ZeroSize,
        }),
{
    if size == 0 {
        return Err(LavaFlowError::InvalidAllocationRequest {
            size,
            reason: crate::error::AllocationReason::ZeroSize,
        });
    }
    Ok(())
}

/// The message of a driver that wants fewer bytes than requested.
pub open spec fn short_allocation_message(allocation_size: u64, requested: usize) -> Seq<char> {
    "allocation size "@ + decimal_string(allocation_size as nat) + " smaller than requested "@
        + decimal_string(requested as nat)
}

/// Once the driver has reported a buffer's memory requirements: the allocation must cover the
/// requested size (it may be larger, for alignment), and a host-visible, host-coherent memory
/// type allowed by `type_bits` is chosen.
pub fn memory_type_for_requirements(
    requested: usize,
    allocation_size: u64,
    property_flags: &[u32],
    memory_type_count: u32,
    type_bits: u32,
) -> (r: Result<u32>)
    requires
        memory_type_count <= property_flags@.len(),
    ensures
        allocation_size < requested ==> (r matches Err(e) && e matches LavaFlowError::VulkanOperation {
            operation,
            details,
        } && operation@ == "get_buffer_memory_requirements"@ && details@ == short_allocation_message(
            allocation_size,
            requested,
        )),
        allocation_size >= requested ==> (r matches Ok(i) ==> first_suitable_memory_type(
            property_flags@,
            memory_type_count,
            type_bits,
            host_memory_properties(),
            i as int,
        )),
        allocation_size >= requested ==> (r is Err <==> no_suitable_memory_type(
            property_flags@,
            memory_type_count,
            type_bits,
            host_memory_properties(),
        )),
        allocation_size >= requested ==> (r matches Err(e) ==> (e matches LavaFlowError::VulkanOperation {
            operation,
            details,
        } && operation@ == "find_memory_type_index"@ && details@ == "no host-visible memory type"@)),
{
    if allocation_size < requested as u64 {
        let mut details = String::new();
        push_str(&mut details, "allocation size ");
        push_decimal(&mut details, allocation_size);
        push_str(&mut details, " smaller than requested ");
        push_decimal(&mut details, requested as u64);
        proof {
            reveal_strlit("allocation size ");
            reveal_strlit(" smaller than requested ");
            assert(details@ =~= short_allocation_message(allocation_size, requested));
        }
        return Err(vulkan_operation_error("get_buffer_memory_requirements", details));
    }
    resolve_memory_type_index(property_flags, memory_type_count, type_bits)
}

} // verus!
