//! GPU memory: device buffers tagged with exportable handles, for a known set of devices.

use vstd::prelude::*;
use crate::error::{AllocationReason, LavaFlowError, Result};
use crate::memory::allocator::InterprocessMemoryHandle;
use crate::memory::cpu::{next_handle_id_after, zeroed_bytes};

verus! {

/// GPU-backed memory buffer with its device and exportable handle.
#[derive(Debug)]
pub struct GpuMemoryBuffer {
    bytes: Vec<u8>,
    device_id: u32,
    external_handle: InterprocessMemoryHandle,
}

impl GpuMemoryBuffer {
    /// The buffer contents.
    pub closed spec fn contents(&self) -> Seq<u8> {
        self.bytes@
    }

    /// The device the buffer was allocated on.
    pub closed spec fn device(&self) -> u32 {
        self.device_id
    }

    /// The exportable handle of the buffer.
    pub closed spec fn handle(&self) -> InterprocessMemoryHandle {
        self.external_handle
    }

    /// Returns the buffer contents.
    pub fn as_slice(&self) -> (r: &[u8])
        ensures
            r@ == self.contents(),
    {
        self.bytes.as_slice()
    }

    /// Returns the buffer size in bytes.
    pub fn size(&self) -> (r: usize)
        ensures
            r == self.contents().len(),
    {
        self.bytes.len()
    }

    /// Returns the device identifier used for allocation.
    pub fn device_id(&self) -> (r: u32)
        ensures
            r == self.device(),
    {
        self.device_id
    }

    /// Returns the exportable external handle.
    pub fn external_handle(&self) -> (r: InterprocessMemoryHandle)
        ensures
            r == self.handle(),
    {
        self.external_handle
    }
}

/// GPU allocator backend over a set of visible device ids.
#[derive(Debug)]
pub struct Allocator {
    available_device_ids: Vec<u32>,
    next_handle_id: u64,
}

/// The name of the environment variable that disables the GPU backend.
pub const DISABLE_VULKAN_ENV: &'static str = "LAVA_FLOW_DISABLE_VULKAN";

impl Allocator {
    /// The visible device ids.
    pub closed spec fn devices(&self) -> Seq<u32> {
        self.available_device_ids@
    }

    /// The id the next buffer's handle will carry.
    pub closed spec fn next_id(&self) -> u64 {
        self.next_handle_id
    }

    /// Whether the GPU backend is enabled: it is not when the disabling environment variable
    /// is set, which the caller reports.
    pub fn probe(disabled_by_env: bool) -> (r: Option<Self>)
        ensures
            disabled_by_env <==> r is None,
            r matches Some(a) ==> a.devices() == seq![0u32] && a.next_id() == 1,
    {
        if disabled_by_env {
            None
        } else {
            Some(Self::new())
        }
    }

    /// Creates a GPU allocator backend that sees device 0.
    pub fn new() -> (r: Self)
        ensures
            r.devices() == seq![0u32],
            r.next_id() == 1,
    {
        let mut ids: Vec<u32> = Vec::new();
        ids.push(0);
        Allocator { available_device_ids: ids, next_handle_id: 1 }
    }

    /// Returns `true` if the backend can allocate for the requested device id.
    pub fn has_device(&self, device_id: u32) -> (r: bool)
        ensures
            r == self.devices().contains(device_id),
    {
        let mut i: usize = 0;
        while i < self.available_device_ids.len()
            invariant
                i <= self.available_device_ids@.len(),
                forall|k: int| 0 <= k < i ==> self.available_device_ids@[k] != device_id,
            decreases self.available_device_ids@.len() - i,
        {
            if self.available_device_ids[i] == device_id {
                return true;
            }
            i = i + 1;
        }
        false
    }

    /// Allocates a zeroed GPU buffer on `device_id` and tags it with a fresh handle.
    pub fn allocate(&mut self, size: usize, device_id: u32) -> (r: Result<GpuMemoryBuffer>)
        ensures
            r is Ok <==> (size > 0 && old(self).devices().contains(device_id)),
            final(self).devices() == old(self).devices(),
            size == 0 ==> (r matches Err(e) && e == (LavaFlowError::InvalidAllocationRequest {
                size,
                reason: AllocationReason::ZeroSize,
            })),
            size > 0 && !old(self).devices().contains(device_id) ==> (r matches Err(e) && e
                == (LavaFlowError::GpuDeviceNotFound { device_id })),
            r is Err ==> final(self).next_id() == old(self).next_id(),
            r matches Ok(b) ==> b.contents() == Seq::new(size as nat, |i: int| 0u8) && b.device()
                == device_id && b.handle() == InterprocessMemoryHandle::GpuOpaqueFd(
                old(self).next_id(),
            ) && final(self).next_id() == next_handle_id_after(old(self).next_id()),
    {
        if size == 0 {
            return Err(LavaFlowError::InvalidAllocationRequest { size, reason: AllocationReason::ZeroSize });
        }
        if !self.has_device(device_id) {
            return Err(LavaFlowError::GpuDeviceNotFound { device_id });
        }
        let handle = InterprocessMemoryHandle::from_gpu_id(self.next_handle_id);
        self.next_handle_id = match self.next_handle_id.checked_add(1) {
            Some(next) => next,
            None => self.next_handle_id,
        };
        Ok(GpuMemoryBuffer { bytes: zeroed_bytes(size), device_id, external_handle: handle })
    }
}

} // verus!
