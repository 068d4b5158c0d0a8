//! Unified allocator over the CPU and GPU backends, with fallback between locations.

use vstd::prelude::*;
use crate::error::{LavaFlowError, Result};
use crate::memory::cpu::{next_handle_id_after, CpuAllocationStrategy, CpuAllocator, CpuMemoryBuffer};
use crate::memory::gpu::{Allocator as GpuAllocator, GpuMemoryBuffer};

verus! {

/// Interprocess memory handle for GPU and CPU shared memory, identified by a number.
#[derive(Copy, Clone, Debug, PartialEq, Eq, Hash, Structural)]
pub enum InterprocessMemoryHandle {
    /// Opaque descriptor of GPU memory.
    GpuOpaqueFd(u64),
    /// Descriptor of CPU shared memory.
    CpuSharedFd(u64),
}

impl InterprocessMemoryHandle {
    /// Handle of GPU memory with the given id.
    pub fn from_gpu_id(id: u64) -> (r: Self)
        ensures
            r == InterprocessMemoryHandle::GpuOpaqueFd(id),
    {
        InterprocessMemoryHandle::GpuOpaqueFd(id)
    }

    /// Handle of CPU shared memory with the given id.
    pub fn from_cpu_shared_id(id: u64) -> (r: Self)
        ensures
            r == InterprocessMemoryHandle::CpuSharedFd(id),
    {
        InterprocessMemoryHandle::CpuSharedFd(id)
    }

    /// The wrapped handle value is non-zero.
    pub open spec fn spec_is_valid(self) -> bool {
        match self {
            InterprocessMemoryHandle::GpuOpaqueFd(raw) => raw != 0,
            InterprocessMemoryHandle::CpuSharedFd(raw) => raw != 0,
        }
    }

    /// Returns whether the wrapped handle value is non-zero.
    pub fn is_valid(&self) -> (r: bool)
        ensures
            r == self.spec_is_valid(),
    {
        match *self {
            InterprocessMemoryHandle::GpuOpaqueFd(raw) => raw != 0,
            InterprocessMemoryHandle::CpuSharedFd(raw) => raw != 0,
        }
    }
}

/// Requested memory location.
#[derive(Copy, Clone, Debug, PartialEq, Eq, Hash, Structural)]
pub enum MemoryLocation {
    /// GPU memory on the given device.
    GpuVulkan { device_id: u32 },
    /// Host memory, optionally pinned for faster GPU staging copies.
    CpuHost { gpu_pinned: bool },
}

/// Type-level metadata of allocated memory.
#[derive(Copy, Clone, Debug, PartialEq, Eq, Hash, Structural)]
pub enum MemoryType {
    /// GPU memory on the given device.
    GpuVulkan { device_id: u32 },
    /// Host memory and its strategy attributes.
    Cpu { strategy: CpuAllocationStrategy, gpu_pinned: bool, alignment: usize },
}

#[derive(Debug)]
enum MemoryBufferBackend {
    Cpu(CpuMemoryBuffer),
    Gpu(GpuMemoryBuffer),
}

/// Buffer returned by the unified allocator.
#[derive(Debug)]
pub struct MemoryBuffer {
    backend: MemoryBufferBackend,
}

/// What a buffer is, seen from outside: its kind, size and type metadata.
pub ghost struct BufferModel {
    pub is_gpu: bool,
    pub size: nat,
    pub memory_type: MemoryType,
    pub handle: InterprocessMemoryHandle,
}

impl MemoryBuffer {
    /// The model of the buffer.
    pub closed spec fn model(&self) -> BufferModel {
        match self.backend {
            MemoryBufferBackend::Cpu(b) => BufferModel {
                is_gpu: false,
                size: b.contents().len(),
                memory_type: MemoryType::Cpu {
                    strategy: b.spec_strategy(),
                    gpu_pinned: b.spec_gpu_pinned(),
                    alignment: 1,
                },
                handle: b.spec_shared_handle(),
            },
            MemoryBufferBackend::Gpu(b) => BufferModel {
                is_gpu: true,
                size: b.contents().len(),
                memory_type: MemoryType::GpuVulkan { device_id: b.device() },
                handle: b.handle(),
            },
        }
    }

    /// Returns the buffer size in bytes.
    pub fn size(&self) -> (r: usize)
        ensures
            r == self.model().size,
    {
        match &self.backend {
            MemoryBufferBackend::Cpu(b) => b.size(),
            MemoryBufferBackend::Gpu(b) => b.size(),
        }
    }

    /// Returns structured memory type metadata.
    pub fn memory_type(&self) -> (r: MemoryType)
        ensures
            r == self.model().memory_type,
    {
        match &self.backend {
            MemoryBufferBackend::Cpu(b) => MemoryType::Cpu {
                strategy: b.strategy(),
                gpu_pinned: b.gpu_pinned(),
                alignment: b.alignment(),
            },
            MemoryBufferBackend::Gpu(b) => MemoryType::GpuVulkan { device_id: b.device_id() },
        }
    }

    /// Returns `true` when the buffer is GPU-backed.
    pub fn is_gpu(&self) -> (r: bool)
        ensures
            r == self.model().is_gpu,
    {
        match &self.backend {
            MemoryBufferBackend::Gpu(_) => true,
            MemoryBufferBackend::Cpu(_) => false,
        }
    }

    /// Returns `true` when the buffer is CPU-backed.
    pub fn is_cpu(&self) -> (r: bool)
        ensures
            r == !self.model().is_gpu,
    {
        match &self.backend {
            MemoryBufferBackend::Cpu(_) => true,
            MemoryBufferBackend::Gpu(_) => false,
        }
    }

    /// Exports the interprocess handle of the buffer.
    pub fn export_handle(&self) -> (r: Result<InterprocessMemoryHandle>)
        ensures
            r == Ok::<InterprocessMemoryHandle, LavaFlowError>(self.model().handle),
    {
        match &self.backend {
            MemoryBufferBackend::Gpu(b) => Ok(b.external_handle()),
            MemoryBufferBackend::Cpu(b) => Ok(b.shared_handle()),
        }
    }
}

/// Unified allocator with GPU and CPU backends.
#[derive(Debug)]
pub struct MemoryAllocator {
    vulkan_allocator: Option<GpuAllocator>,
    cpu_allocator: CpuAllocator,
}

/// Where to retry after a failed allocation: GPU and pinned host memory fall back to standard
/// host memory; standard host memory has no fallback.
pub open spec fn spec_fallback_location(primary: MemoryLocation) -> Option<MemoryLocation> {
    match primary {
        MemoryLocation::GpuVulkan { .. } => Some(MemoryLocation::CpuHost { gpu_pinned: false }),
        MemoryLocation::CpuHost { gpu_pinned } => if gpu_pinned {
            Some(MemoryLocation::CpuHost { gpu_pinned: false })
        } else {
            None
        },
    }
}

/// The fallback location of `primary`.
pub fn fallback_location(primary: MemoryLocation) -> (r: Option<MemoryLocation>)
    ensures
        r == spec_fallback_location(primary),
{
    match primary {
        MemoryLocation::GpuVulkan { .. } => Some(MemoryLocation::CpuHost { gpu_pinned: false }),
        MemoryLocation::CpuHost { gpu_pinned: true } => Some(
            MemoryLocation::CpuHost { gpu_pinned: false },
        ),
        MemoryLocation::CpuHost { gpu_pinned: false } => None,
    }
}

/// Whether an allocation of `size` bytes at `location` succeeds, given whether a GPU backend
/// exists and which devices it sees.
pub open spec fn allocation_succeeds(
    size: usize,
    location: MemoryLocation,
    gpu_devices: Option<Seq<u32>>,
) -> bool {
    size > 0 && match location {
        MemoryLocation::GpuVulkan { device_id } => match gpu_devices {
            Some(d) => d.contains(device_id),
            None => false,
        },
        MemoryLocation::CpuHost { .. } => true,
    }
}

/// The error of an allocation of `size` bytes at `location` that does not succeed: a GPU
/// request without a backend fails for want of it; otherwise a zero size is refused, and then a
/// GPU request for a device the backend does not see.
pub open spec fn allocation_error(size: usize, location: MemoryLocation, gpu_devices: Option<Seq<u32>>) -> LavaFlowError {
    match location {
        MemoryLocation::GpuVulkan { device_id } => match gpu_devices {
            None => LavaFlowError::GpuBackendUnavailable,
            Some(_) => if size == 0 {
                LavaFlowError::InvalidAllocationRequest {
                    size,
                    reason: crate::error::AllocationReason::ZeroSize,
                }
            } else {
                LavaFlowError::GpuDeviceNotFound { device_id }
            },
        },
        MemoryLocation::CpuHost { .. } => LavaFlowError::InvalidAllocationRequest {
            size,
            reason: crate::error::AllocationReason::ZeroSize,
        },
    }
}

/// A buffer of `size` bytes allocated at `location`.
pub open spec fn allocated_at(b: BufferModel, size: usize, location: MemoryLocation) -> bool {
    &&& b.size == size
    &&& b.memory_type == location_memory_type(location)
    &&& b.is_gpu == (location is GpuVulkan)
}

/// The handle the next allocation at `location` gets: the next id of the backend that serves
/// it.
pub open spec fn next_handle(location: MemoryLocation, cpu_next_id: u64, gpu_next_id: u64) -> InterprocessMemoryHandle {
    match location {
        MemoryLocation::GpuVulkan { .. } => InterprocessMemoryHandle::GpuOpaqueFd(gpu_next_id),
        MemoryLocation::CpuHost { .. } => InterprocessMemoryHandle::CpuSharedFd(cpu_next_id),
    }
}

/// The memory type an allocation at `location` produces.
pub open spec fn location_memory_type(location: MemoryLocation) -> MemoryType {
    match location {
        MemoryLocation::GpuVulkan { device_id } => MemoryType::GpuVulkan { device_id },
        MemoryLocation::CpuHost { gpu_pinned } => MemoryType::Cpu {
            strategy: if gpu_pinned {
                CpuAllocationStrategy::GpuPinned
            } else {
                CpuAllocationStrategy::Standard
            },
            gpu_pinned,
            alignment: 1,
        },
    }
}

/// The fallback chain ends after one step at standard host memory, which serves every
/// non-empty request: a non-empty allocation with fallback never fails, whatever the GPU
/// backend sees.
pub proof fn lemma_fallback_serves_every_nonempty_request(
    size: usize,
    primary: MemoryLocation,
    gpu_devices: Option<Seq<u32>>,
)
    requires
        size > 0,
    ensures
        allocation_succeeds(size, primary, gpu_devices) || (spec_fallback_location(primary) matches Some(f)
            && f == (MemoryLocation::CpuHost { gpu_pinned: false }) && allocation_succeeds(
            size,
            f,
            gpu_devices,
        )),
        spec_fallback_location(MemoryLocation::CpuHost { gpu_pinned: false }) is None,
{
}

impl MemoryAllocator {
    #[verifier::type_invariant]
    closed spec fn inv(self) -> bool {
        &&& self.cpu_allocator.next_id() >= 1
        &&& self.vulkan_allocator matches Some(a) ==> a.next_id() >= 1
    }

    /// The devices of the GPU backend, if there is one.
    pub closed spec fn gpu_devices(&self) -> Option<Seq<u32>> {
        match self.vulkan_allocator {
            Some(a) => Some(a.devices()),
            None => None,
        }
    }

    /// The id the next CPU buffer's handle will carry.
    pub closed spec fn cpu_next_id(&self) -> u64 {
        self.cpu_allocator.next_id()
    }

    /// The id the next GPU buffer's handle will carry; `0` without a GPU backend.
    pub closed spec fn gpu_next_id(&self) -> u64 {
        match self.vulkan_allocator {
            Some(a) => a.next_id(),
            None => 0,
        }
    }

    /// Creates a unified allocator; the GPU backend is left out when it is disabled.
    pub fn new(vulkan_disabled: bool) -> (r: Self)
        ensures
            vulkan_disabled ==> r.gpu_devices() is None,
            !vulkan_disabled ==> r.gpu_devices() == Some(seq![0u32]) && r.gpu_next_id() == 1,
            r.cpu_next_id() == 1,
    {
        MemoryAllocator {
            vulkan_allocator: GpuAllocator::probe(vulkan_disabled),
            cpu_allocator: CpuAllocator::new(),
        }
    }

    /// Allocates `size` bytes at the requested location.
    pub fn allocate(&mut self, size: usize, location: MemoryLocation) -> (r: Result<MemoryBuffer>)
        ensures
            r is Ok <==> allocation_succeeds(size, location, old(self).gpu_devices()),
            final(self).gpu_devices() == old(self).gpu_devices(),
            r matches Ok(b) ==> allocated_at(b.model(), size, location) && b.model().handle
                == next_handle(location, old(self).cpu_next_id(), old(self).gpu_next_id())
                && b.model().handle.spec_is_valid(),
            r matches Err(e) ==> e == allocation_error(size, location, old(self).gpu_devices()),
            r is Ok && location is CpuHost ==> final(self).cpu_next_id() == next_handle_id_after(
                old(self).cpu_next_id(),
            ) && final(self).gpu_next_id() == old(self).gpu_next_id(),
            r is Ok && location is GpuVulkan ==> final(self).gpu_next_id() == next_handle_id_after(
                old(self).gpu_next_id(),
            ) && final(self).cpu_next_id() == old(self).cpu_next_id(),
            r is Err ==> final(self).cpu_next_id() == old(self).cpu_next_id()
                && final(self).gpu_next_id() == old(self).gpu_next_id(),
    {
        proof {
            use_type_invariant(&*self);
        }
        match location {
            MemoryLocation::GpuVulkan { device_id } => {
                let mut vulkan: Option<GpuAllocator> = None;
                std::mem::swap(&mut vulkan, &mut self.vulkan_allocator);
                let result = match &mut vulkan {
                    Some(a) => match a.allocate(size, device_id) {
                        Ok(buffer) => Ok(MemoryBuffer { backend: MemoryBufferBackend::Gpu(buffer) }),
                        Err(e) => Err(e),
                    },
                    None => Err(LavaFlowError::GpuBackendUnavailable),
                };
                std::mem::swap(&mut vulkan, &mut self.vulkan_allocator);
                result
            },
            MemoryLocation::CpuHost { gpu_pinned } => {
                let mut cpu = CpuAllocator::new();
                std::mem::swap(&mut cpu, &mut self.cpu_allocator);
                let result = if gpu_pinned {
                    cpu.allocate_gpu_pinned(size)
                } else {
                    cpu.allocate_standard(size)
                };
                std::mem::swap(&mut cpu, &mut self.cpu_allocator);
                match result {
                    Ok(cpu_buffer) => Ok(MemoryBuffer { backend: MemoryBufferBackend::Cpu(cpu_buffer) }),
                    Err(e) => Err(e),
                }
            },
        }
    }

    /// Allocates at `primary`, and on failure at its fallback location if it has one; without
    /// a fallback the primary error is returned.
    pub fn allocate_with_fallback(&mut self, size: usize, primary: MemoryLocation) -> (r: Result<
        MemoryBuffer,
    >)
        ensures
            final(self).gpu_devices() == old(self).gpu_devices(),
            allocation_succeeds(size, primary, old(self).gpu_devices()) ==> (r matches Ok(b)
                && allocated_at(b.model(), size, primary) && b.model().handle == next_handle(
                primary,
                old(self).cpu_next_id(),
                old(self).gpu_next_id(),
            )),
            r matches Ok(b) ==> b.model().handle.spec_is_valid(),
            !allocation_succeeds(size, primary, old(self).gpu_devices()) ==> match spec_fallback_location(primary) {
                Some(f) => (r is Ok <==> allocation_succeeds(size, f, old(self).gpu_devices()))
                    && (r matches Ok(b) ==> allocated_at(b.model(), size, f) && b.model().handle
                    == next_handle(f, old(self).cpu_next_id(), old(self).gpu_next_id()))
                    && (r matches Err(e) ==> e == allocation_error(size, f, old(self).gpu_devices())),
                None => r matches Err(e) && e == allocation_error(size, primary, old(self).gpu_devices()),
            },
    {
        match self.allocate(size, primary) {
            Ok(buffer) => Ok(buffer),
            Err(primary_err) => {
                match fallback_location(primary) {
                    Some(fallback) => self.allocate(size, fallback),
                    None => Err(primary_err),
                }
            },
        }
    }
}

} // verus!
