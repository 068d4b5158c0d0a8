//! The channel envelope types under their earlier module path, and the contract of typed
//! metadata.

use vstd::prelude::*;

pub use crate::channel::{Frame, MetadataEncoding, ReceiveRepresentation};

verus! {

/// Typed metadata that travels with a payload. Implementors also provide the serialization
/// that carries them over the wire.
pub trait ChannelMetadata {
    /// The number of payload bytes that are valid for this message.
    fn used_size(&self) -> usize;
}

} // verus!
