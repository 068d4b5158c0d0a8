//! Access rights of the clients of a local named pipe, and the size of the access control
//! list that grants them to one security identifier.

use vstd::prelude::*;

verus! {

/// `FILE_READ_DATA`: read payload and control bytes from the pipe.
pub const FILE_READ_DATA: u32 = 0x0001;

/// `FILE_WRITE_DATA`: write protocol bytes, such as import acknowledgements, to the pipe.
pub const FILE_WRITE_DATA: u32 = 0x0002;

/// `FILE_READ_EA`: read extended attributes, which the client open path checks.
pub const FILE_READ_EA: u32 = 0x0008;

/// `FILE_READ_ATTRIBUTES`: read the pipe's attributes, which the client open path checks.
pub const FILE_READ_ATTRIBUTES: u32 = 0x0080;

/// `READ_CONTROL`: read the pipe object's security descriptor during the access check.
pub const READ_CONTROL: u32 = 0x0002_0000;

/// `SYNCHRONIZE`: wait on the handle and use blocking I/O.
pub const SYNCHRONIZE: u32 = 0x0010_0000;

/// An access mask granted to pipe clients.
#[derive(Copy, Clone, Debug, PartialEq, Eq, Structural)]
pub struct PipeAccessMask(u32);

impl PipeAccessMask {
    /// The mask's bits.
    pub closed spec fn spec_bits(self) -> u32 {
        self.0
    }

    /// Returns the mask's bits.
    pub fn bits(self) -> (r: u32)
        ensures
            r == self.spec_bits(),
    {
        self.0
    }
}

/// Collects access rights one at a time.
#[derive(Copy, Clone, Debug, PartialEq, Eq, Structural)]
pub struct PipeAccessMaskBuilder {
    bits: u32,
}

impl PipeAccessMaskBuilder {
    /// The rights collected so far.
    pub closed spec fn spec_bits(self) -> u32 {
        self.bits
    }

    /// A builder with no rights.
    pub fn new() -> (r: Self)
        ensures
            r.spec_bits() == 0,
    {
        PipeAccessMaskBuilder { bits: 0 }
    }

    /// Adds `FILE_READ_DATA`.
    pub fn read_data(self) -> (r: Self)
        ensures
            r.spec_bits() == self.spec_bits() | FILE_READ_DATA,
    {
        PipeAccessMaskBuilder { bits: self.bits | FILE_READ_DATA }
    }

    /// Adds `FILE_READ_ATTRIBUTES`.
    pub fn read_attributes(self) -> (r: Self)
        ensures
            r.spec_bits() == self.spec_bits() | FILE_READ_ATTRIBUTES,
    {
        PipeAccessMaskBuilder { bits: self.bits | FILE_READ_ATTRIBUTES }
    }

    /// Adds `FILE_READ_EA`.
    pub fn read_extended_attributes(self) -> (r: Self)
        ensures
            r.spec_bits() == self.spec_bits() | FILE_READ_EA,
    {
        PipeAccessMaskBuilder { bits: self.bits | FILE_READ_EA }
    }

    /// Adds `FILE_WRITE_DATA`.
    pub fn write_data(self) -> (r: Self)
        ensures
            r.spec_bits() == self.spec_bits() | FILE_WRITE_DATA,
    {
        PipeAccessMaskBuilder { bits: self.bits | FILE_WRITE_DATA }
    }

    /// Adds `READ_CONTROL`.
    pub fn read_control(self) -> (r: Self)
        ensures
            r.spec_bits() == self.spec_bits() | READ_CONTROL,
    {
        PipeAccessMaskBuilder { bits: self.bits | READ_CONTROL }
    }

    /// Adds `SYNCHRONIZE`.
    pub fn synchronize(self) -> (r: Self)
        ensures
            r.spec_bits() == self.spec_bits() | SYNCHRONIZE,
    {
        PipeAccessMaskBuilder { bits: self.bits | SYNCHRONIZE }
    }

    /// The mask of the collected rights.
    pub fn build(self) -> (r: PipeAccessMask)
        ensures
            r.spec_bits() == self.spec_bits(),
    {
        PipeAccessMask(self.bits)
    }
}

/// The rights a local client needs to open the duplex pipe, read frames and write
/// acknowledgements: exactly the six rights above, and nothing else.
pub fn local_pipe_client_access_mask() -> (r: PipeAccessMask)
    ensures
        r.spec_bits() == FILE_READ_DATA | FILE_READ_ATTRIBUTES | FILE_READ_EA | FILE_WRITE_DATA
            | READ_CONTROL | SYNCHRONIZE,
        r.spec_bits() == 0x0012_008b,
{
    let r = PipeAccessMaskBuilder::new().read_data().read_attributes().read_extended_attributes().write_data().read_control().synchronize().build();
    assert(0u32 | 0x0001u32 | 0x0080u32 | 0x0008u32 | 0x0002u32 | 0x0002_0000u32 | 0x0010_0000u32
        == 0x0012_008bu32) by (bit_vector);
    assert(0x0001u32 | 0x0080u32 | 0x0008u32 | 0x0002u32 | 0x0002_0000u32 | 0x0010_0000u32
        == 0x0012_008bu32) by (bit_vector);
    r
}

/// Size in bytes of an access control list header (`ACL`).
pub const ACL_HEADER_SIZE: usize = 8;

/// Size in bytes of an access-allowed entry (`ACCESS_ALLOWED_ACE`) before its SID, counting
/// the first SID word that the entry's layout already holds.
pub const ACCESS_ALLOWED_ACE_SIZE: usize = 12;

/// Size in bytes of an access control list with one access-allowed entry for a SID of
/// `sid_size` bytes: the header, the entry, and the SID, less the SID word the entry holds.
pub open spec fn spec_acl_size(sid_size: nat) -> nat {
    (ACL_HEADER_SIZE + ACCESS_ALLOWED_ACE_SIZE + sid_size - 4) as nat
}

/// The size of such a list and the number of 32-bit words that hold it, rounded up.
pub fn acl_layout(sid_size: usize) -> (r: (usize, usize))
    requires
        sid_size + ACL_HEADER_SIZE + ACCESS_ALLOWED_ACE_SIZE <= usize::MAX,
    ensures
        r.0 == spec_acl_size(sid_size as nat),
        r.1 * 4 >= r.0,
        r.1 * 4 < r.0 + 4,
{
    let acl_size = ACL_HEADER_SIZE + ACCESS_ALLOWED_ACE_SIZE + sid_size - 4;
    let words = acl_size / 4 + if acl_size % 4 == 0 { 0 } else { 1 };
    (acl_size, words)
}

} // verus!
