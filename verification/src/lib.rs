//! Topology-aware local channels and CPU/GPU memory allocation.
//!
//! The library holds the rules: identifier and hostname validation, the scope derived from
//! process locations, allocation limits and fallbacks, the byte layout of the local channel
//! protocol, its authentication handshake and the naming of local endpoints. Moving bytes over
//! sockets and mapping shared memory is left to the caller.

pub mod channel;
pub mod channels;
pub mod error;
pub mod memory;
pub mod text;
pub mod types;

pub use error::{AllocationReason, LavaFlowError, Result, ValidationReason};
pub use memory::{cpu, gpu};
