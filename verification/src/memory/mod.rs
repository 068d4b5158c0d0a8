//! Memory allocation: CPU and GPU buffers behind one allocator, with location fallback.

pub mod allocator;
pub mod cpu;
pub mod gpu;
pub mod shm;
pub mod vulkan;

pub use allocator::{
    InterprocessMemoryHandle, MemoryAllocator, MemoryBuffer, MemoryLocation, MemoryType,
};
pub use cpu::CpuAllocationStrategy;
