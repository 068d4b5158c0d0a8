//! CPU memory: host buffers, allocation caps and the cap configuration syntax.

use vstd::prelude::*;
use crate::error::{AllocationReason, LavaFlowError, Result};
use crate::memory::allocator::InterprocessMemoryHandle;
use crate::text::is_ascii_digit;

verus! {

/// CPU-side allocation strategy of a [`CpuMemoryBuffer`].
#[derive(Copy, Clone, Debug, PartialEq, Eq, Hash, Structural)]
pub enum CpuAllocationStrategy {
    /// Default host allocation.
    Standard,
    /// Host memory intended for GPU staging.
    GpuPinned,
}

/// CPU-backed memory buffer with its strategy and interprocess handle.
#[derive(Debug)]
pub struct CpuMemoryBuffer {
    bytes: Vec<u8>,
    strategy: CpuAllocationStrategy,
    gpu_pinned: bool,
    shared_handle: InterprocessMemoryHandle,
}

impl CpuMemoryBuffer {
    /// The buffer contents.
    pub closed spec fn contents(&self) -> Seq<u8> {
        self.bytes@
    }

    /// The strategy the buffer was allocated with.
    pub closed spec fn spec_strategy(&self) -> CpuAllocationStrategy {
        self.strategy
    }

    /// Whether the buffer is pinned for GPU staging.
    pub closed spec fn spec_gpu_pinned(&self) -> bool {
        self.gpu_pinned
    }

    /// The buffer's interprocess handle.
    pub closed spec fn spec_shared_handle(&self) -> InterprocessMemoryHandle {
        self.shared_handle
    }

    /// Returns the buffer contents.
    pub fn as_slice(&self) -> (r: &[u8])
        ensures
            r@ == self.contents(),
    {
        self.bytes.as_slice()
    }

    /// Returns the buffer size in bytes.
    pub fn size(&self) -> (r: usize)
        ensures
            r == self.contents().len(),
    {
        self.bytes.len()
    }

    /// Returns the allocation strategy used to create this buffer.
    pub fn strategy(&self) -> (r: CpuAllocationStrategy)
        ensures
            r == self.spec_strategy(),
    {
        self.strategy
    }

    /// Returns whether this allocation is pinned for GPU staging access.
    pub fn gpu_pinned(&self) -> (r: bool)
        ensures
            r == self.spec_gpu_pinned(),
    {
        self.gpu_pinned
    }

    /// Returns the alignment of the byte storage.
    pub fn alignment(&self) -> (r: usize)
        ensures
            r == 1,
    {
        1
    }

    /// Returns the interprocess shared-memory handle for this buffer.
    pub fn shared_handle(&self) -> (r: InterprocessMemoryHandle)
        ensures
            r == self.spec_shared_handle(),
    {
        self.shared_handle
    }
}

/// CPU allocation backend that tags each buffer with a fresh shared-memory handle id.
#[derive(Debug)]
pub struct CpuAllocator {
    next_shared_handle_id: u64,
}

impl CpuAllocator {
    /// The id the next buffer's handle will carry.
    pub closed spec fn next_id(&self) -> u64 {
        self.next_shared_handle_id
    }

    /// Creates a CPU allocator backend whose first handle id is 1.
    pub fn new() -> (r: Self)
        ensures
            r.next_id() == 1,
    {
        CpuAllocator { next_shared_handle_id: 1 }
    }

    /// Allocates zeroed standard host memory.
    pub fn allocate_standard(&mut self, size: usize) -> (r: Result<CpuMemoryBuffer>)
        ensures
            size == 0 <==> r is Err,
            r matches Err(e) ==> e == (LavaFlowError::InvalidAllocationRequest {
                size,
                reason: AllocationReason::ZeroSize,
            }) && final(self).next_id() == old(self).next_id(),
            r matches Ok(b) ==> b.contents() == Seq::new(size as nat, |i: int| 0u8)
                && b.spec_strategy() == CpuAllocationStrategy::Standard && !b.spec_gpu_pinned()
                && b.spec_shared_handle() == InterprocessMemoryHandle::CpuSharedFd(old(self).next_id())
                && final(self).next_id() == next_handle_id_after(old(self).next_id()),
    {
        let bytes = allocate_bytes(size)?;
        let shared_handle = self.next_shared_handle();
        Ok(CpuMemoryBuffer {
            bytes,
            strategy: CpuAllocationStrategy::Standard,
            gpu_pinned: false,
            shared_handle,
        })
    }

    /// Allocates zeroed host memory intended for CPU/GPU staging.
    pub fn allocate_gpu_pinned(&mut self, size: usize) -> (r: Result<CpuMemoryBuffer>)
        ensures
            size == 0 <==> r is Err,
            r matches Err(e) ==> e == (LavaFlowError::InvalidAllocationRequest {
                size,
                reason: AllocationReason::ZeroSize,
            }) && final(self).next_id() == old(self).next_id(),
            r matches Ok(b) ==> b.contents() == Seq::new(size as nat, |i: int| 0u8)
                && b.spec_strategy() == CpuAllocationStrategy::GpuPinned && b.spec_gpu_pinned()
                && b.spec_shared_handle() == InterprocessMemoryHandle::CpuSharedFd(old(self).next_id())
                && final(self).next_id() == next_handle_id_after(old(self).next_id()),
    {
        let bytes = allocate_bytes(size)?;
        let shared_handle = self.next_shared_handle();
        Ok(CpuMemoryBuffer {
            bytes,
            strategy: CpuAllocationStrategy::GpuPinned,
            gpu_pinned: true,
            shared_handle,
        })
    }

    fn next_shared_handle(&mut self) -> (r: InterprocessMemoryHandle)
        ensures
            r == InterprocessMemoryHandle::CpuSharedFd(old(self).next_id()),
            final(self).next_id() == next_handle_id_after(old(self).next_id()),
    {
        let handle = InterprocessMemoryHandle::from_cpu_shared_id(self.next_shared_handle_id);
        self.next_shared_handle_id = match self.next_shared_handle_id.checked_add(1) {
            Some(next) => next,
            None => self.next_shared_handle_id,
        };
        handle
    }
}

/// The handle id that follows `id`: one more, saturating at the largest id.
pub open spec fn next_handle_id_after(id: u64) -> u64 {
    if id < u64::MAX {
        (id + 1) as u64
    } else {
        id
    }
}

fn allocate_bytes(size: usize) -> (r: Result<Vec<u8>>)
    ensures
        size == 0 <==> r is Err,
        r matches Err(e) ==> e == (LavaFlowError::InvalidAllocationRequest {
            size,
            reason: AllocationReason::ZeroSize,
        }),
        r matches Ok(v) ==> v@ == Seq::new(size as nat, |i: int| 0u8),
{
    if size == 0 {
        return Err(LavaFlowError::InvalidAllocationRequest { size, reason: AllocationReason::ZeroSize });
    }
    Ok(zeroed_bytes(size))
}

/// A vector of `size` zero bytes.
pub fn zeroed_bytes(size: usize) -> (r: Vec<u8>)
    ensures
        r@ == Seq::new(size as nat, |i: int| 0u8),
{
    let mut v: Vec<u8> = Vec::with_capacity(size);
    let mut i: usize = 0;
    while i < size
        invariant
            i <= size,
            v@ == Seq::new(i as nat, |k: int| 0u8),
        decreases size - i,
    {
        v.push(0u8);
        i = i + 1;
        assert(v@ =~= Seq::new(i as nat, |k: int| 0u8));
    }
    v
}

/// CPU-side allocation strategy of a [`MemoryBuffer`].
#[derive(Copy, Clone, Debug, PartialEq, Eq, Hash, Structural)]
pub enum AllocationStrategy {
    /// Default host allocation.
    Standard,
    /// Host memory that is page-locked/pinned.
    GpuPinned,
}

/// The platform hard limit of one allocation: the smaller of `isize::MAX` and the largest
/// `off_t`, which is `isize::MAX` where `off_t` has 64 bits and `i32::MAX` where it has 32.
pub open spec fn is_platform_hard_limit(hard: usize) -> bool {
    hard == isize::MAX || hard == i32::MAX
}

/// A size that an allocation under `cap` may have: not zero and at most the cap.
pub open spec fn within_limit(size: nat, cap: usize) -> bool {
    0 < size <= cap
}

/// Name of the environment variable that caps one CPU allocation, in bytes.
pub const MAX_CPU_ALLOCATION_SIZE_ENV: &'static str = "LAVA_FLOW_MAX_CPU_ALLOCATION_SIZE";

/// CPU allocator enforcing a maximum allocation size.
#[derive(Debug)]
pub struct Allocator {
    max_allocation_size: usize,
}

/// CPU-backed memory buffer.
#[derive(Debug)]
pub struct MemoryBuffer {
    bytes: Vec<u8>,
}

impl MemoryBuffer {
    /// The buffer contents.
    pub closed spec fn contents(&self) -> Seq<u8> {
        self.bytes@
    }

    /// Returns an immutable byte slice view over the whole allocation.
    pub fn as_slice(&self) -> (r: &[u8])
        ensures
            r@ == self.contents(),
    {
        self.bytes.as_slice()
    }

    /// Writes `value` at `index`.
    pub fn set_byte(&mut self, index: usize, value: u8)
        requires
            index < old(self).contents().len(),
        ensures
            final(self).contents() == old(self).contents().update(index as int, value),
    {
        self.bytes.set(index, value);
    }

    /// Returns the buffer size in bytes.
    pub fn size(&self) -> (r: usize)
        ensures
            r == self.contents().len(),
    {
        self.bytes.len()
    }

    /// Takes over the bytes of a buffer imported from a peer; the size is checked against
    /// zero and the platform hard limit, as for a local allocation.
    pub fn from_imported_bytes(bytes: Vec<u8>) -> (r: Result<Self>)
        ensures
            r matches Ok(b) ==> b.contents() == bytes@,
            bytes@.len() == 0 ==> (r matches Err(e) && e == (LavaFlowError::InvalidAllocationRequest {
                size: 0,
                reason: AllocationReason::ZeroSize,
            })),
            exists|hard: usize|
                is_platform_hard_limit(hard) && (r is Ok <==> #[trigger] within_limit(bytes@.len(), hard)),
            r is Ok <==> within_limit(bytes@.len(), platform_hard_limit()),
    {
        let hard = hard_max_cpu_allocation_size();
        let checked = validate_size(bytes.len(), hard);
        assert(checked is Ok <==> within_limit(bytes@.len(), hard));
        match checked {
            Ok(()) => Ok(MemoryBuffer { bytes }),
            Err(e) => Err(e),
        }
    }

    /// Returns the allocation strategy used to create this buffer.
    pub fn strategy(&self) -> (r: AllocationStrategy)
        ensures
            r == AllocationStrategy::Standard,
    {
        AllocationStrategy::Standard
    }
}

/// The largest file offset of the target: `libc::off_t::MAX`, where `off_t` is the target's
/// 32-bit or 64-bit signed offset type.
pub const OFF_T_MAX: libc::off_t = libc::off_t::MAX;

/// The hard limit of one allocation on this target: the smaller of the largest file offset
/// and `isize::MAX`.
pub open spec fn platform_hard_limit() -> usize {
    if OFF_T_MAX < isize::MAX {
        OFF_T_MAX as usize
    } else {
        isize::MAX as usize
    }
}

/// The hard limit is the minimum of the largest file offset and the pointer range: it is
/// within both, equal to one of them, and it is `isize::MAX` wherever `off_t` reaches that far
/// (every target whose `off_t` has 64 bits).
pub proof fn lemma_hard_limit_is_min_of_offset_and_pointer_range()
    ensures
        platform_hard_limit() <= OFF_T_MAX,
        platform_hard_limit() <= isize::MAX,
        platform_hard_limit() == OFF_T_MAX || platform_hard_limit() == isize::MAX,
        OFF_T_MAX >= isize::MAX ==> platform_hard_limit() == isize::MAX,
        OFF_T_MAX == i64::MAX ==> platform_hard_limit() == isize::MAX,
{
}

/// Largest `off_t` value of the platform, from `libc::off_t::MAX`.
///
/// `libc` defines `off_t` as a 32-bit or a 64-bit signed integer on every platform it
/// supports (`i32`, `i64`, `c_long` or `c_longlong`), so the maximum is `i32::MAX` or
/// `i64::MAX`; the contract names it as [`OFF_T_MAX`].
#[verifier::external_body]
fn off_t_max() -> (m: u128)
    ensures
        m == i32::MAX || m == i64::MAX,
        m == OFF_T_MAX,
{
    libc::off_t::MAX as u128
}

/// The platform hard limit for one allocation: within the pointer range and the file offset
/// range of the shared-memory backing, as [`hard_limit_for`] computes it from the largest
/// `off_t`.
pub fn hard_max_cpu_allocation_size() -> (r: usize)
    ensures
        0 < r <= isize::MAX,
        is_platform_hard_limit(r),
        r == platform_hard_limit(),
        r <= OFF_T_MAX && r <= isize::MAX && (r == OFF_T_MAX || r == isize::MAX),
{
    hard_limit_for(off_t_max())
}

/// The hard limit of one allocation under a largest file offset of `off_max`: the smaller of
/// `off_max` and `isize::MAX`.
pub fn hard_limit_for(off_max: u128) -> (r: usize)
    requires
        off_max == i32::MAX || off_max == i64::MAX,
    ensures
        r == (if off_max < isize::MAX {
            off_max
        } else {
            isize::MAX as u128
        }),
        0 < r <= isize::MAX,
        is_platform_hard_limit(r),
{
    let pointer_max: u128 = isize::MAX as u128;
    let cap: u128 = if off_max < pointer_max { off_max } else { pointer_max };
    cap as usize
}

/// The digits of a decimal number: the text with one optional leading `+` removed.
pub open spec fn decimal_digits(s: Seq<char>) -> Seq<char> {
    if s.len() > 0 && s[0] == '+' {
        s.drop_first()
    } else {
        s
    }
}

/// The value of a sequence of decimal digits.
pub open spec fn decimal_value(d: Seq<char>) -> nat
    decreases d.len(),
{
    if d.len() == 0 {
        0
    } else {
        decimal_value(d.drop_last()) * 10 + ((d.last() as nat) - ('0' as nat)) as nat
    }
}

/// What `str::parse::<usize>` returns: the value of an optional `+` followed by at least one
/// decimal digit, when it fits in `usize`.
pub open spec fn parse_usize(s: Seq<char>) -> Option<usize> {
    let d = decimal_digits(s);
    if d.len() > 0 && (forall|i: int| 0 <= i < d.len() ==> is_ascii_digit(#[trigger] d[i]))
        && decimal_value(d) <= usize::MAX {
        Some(decimal_value(d) as usize)
    } else {
        None
    }
}

proof fn lemma_decimal_value_step(d: Seq<char>, i: int)
    requires
        0 <= i < d.len(),
        is_ascii_digit(d[i]),
    ensures
        decimal_value(d.subrange(0, i + 1)) == decimal_value(d.subrange(0, i)) * 10 + ((d[i] as nat)
            - ('0' as nat)),
{
    assert(d.subrange(0, i + 1).drop_last() =~= d.subrange(0, i));
}

proof fn lemma_decimal_value_monotone(d: Seq<char>, i: int, j: int)
    requires
        0 <= i <= j <= d.len(),
        forall|k: int| 0 <= k < d.len() ==> is_ascii_digit(#[trigger] d[k]),
    ensures
        decimal_value(d.subrange(0, i)) <= decimal_value(d.subrange(0, j)),
    decreases j - i,
{
    if i < j {
        lemma_decimal_value_monotone(d, i, j - 1);
        lemma_decimal_value_step(d, j - 1);
    }
}

/// Parses a decimal `usize` as `str::parse::<usize>` does.
pub fn parse_usize_decimal(s: &str) -> (r: Option<usize>)
    ensures
        r == parse_usize(s@),
{
    let n: usize = s.unicode_len();
    let start: usize = if n > 0 && s.get_char(0) == '+' { 1 } else { 0 };
    let ghost d = decimal_digits(s@);
    proof {
        assert(d =~= s@.subrange(start as int, n as int));
    }
    if start == n {
        return None;
    }
    let mut i: usize = start;
    let mut value: usize = 0;
    let mut overflow = false;
    while i < n
        invariant
            n == s@.len(),
            start <= i <= n,
            d == s@.subrange(start as int, n as int),
            d == decimal_digits(s@),
            forall|k: int| 0 <= k < i - start ==> is_ascii_digit(#[trigger] d[k]),
            !overflow ==> value == decimal_value(d.subrange(0, i - start)),
            overflow ==> decimal_value(d.subrange(0, i - start)) > usize::MAX,
        decreases n - i,
    {
        let c = s.get_char(i);
        if !('0' <= c && c <= '9') {
            proof {
                assert(!is_ascii_digit(d[i - start]));
            }
            return None;
        }
        proof {
            assert(d[i - start] == c);
        }
        if !overflow {
            let digit: usize = ((c as u32) - ('0' as u32)) as usize;
            match value.checked_mul(10) {
                Some(scaled) => match scaled.checked_add(digit) {
                    Some(next) => {
                        value = next;
                    },
                    None => {
                        overflow = true;
                    },
                },
                None => {
                    overflow = true;
                },
            }
        }
        proof {
            let k = (i - start) as int;
            lemma_decimal_value_step(d.subrange(0, k + 1), k);
            assert(d.subrange(0, k + 1).subrange(0, k + 1) =~= d.subrange(0, k + 1));
            assert(d.subrange(0, k + 1).subrange(0, k) =~= d.subrange(0, k));
        }
        i = i + 1;
    }
    proof {
        assert(d.subrange(0, (n - start) as int) =~= d);
    }
    if overflow {
        None
    } else {
        Some(value)
    }
}

/// The allocation cap configured by text: a positive decimal value, at most `hard`; anything
/// else, including no text, zero or an unparsable value, gives `hard`.
pub open spec fn configured_cap(raw: Option<Seq<char>>, hard: usize) -> usize {
    let configured = match raw {
        Some(text) => match parse_usize(text) {
            Some(v) => if v > 0 {
                v
            } else {
                hard
            },
            None => hard,
        },
        None => hard,
    };
    if configured < hard {
        configured
    } else {
        hard
    }
}

/// The characters of an optional text.
pub open spec fn text_view(raw: Option<&str>) -> Option<Seq<char>> {
    match raw {
        Some(t) => Some(t@),
        None => None,
    }
}

/// Reads the allocation cap from its configuration text.
pub fn parse_cpu_allocation_cap(raw: Option<&str>, hard: usize) -> (r: usize)
    ensures
        r == configured_cap(text_view(raw), hard),
{
    let configured = match raw {
        Some(value) => match parse_usize_decimal(value) {
            Some(parsed) => if parsed > 0 {
                parsed
            } else {
                hard
            },
            None => hard,
        },
        None => hard,
    };
    if configured < hard {
        configured
    } else {
        hard
    }
}

/// Checks a requested size against zero and the cap.
pub fn validate_size(size: usize, max_allocation_size: usize) -> (r: Result<()>)
    ensures
        r is Ok <==> (0 < size <= max_allocation_size),
        size == 0 ==> (r matches Err(e) && e == (LavaFlowError::InvalidAllocationRequest {
            size,
            reason: AllocationReason::ZeroSize,
        })),
        size > max_allocation_size && size != 0 ==> (r matches Err(e) && e
            == (LavaFlowError::InvalidAllocationRequest {
            size,
            reason: AllocationReason::ExceedsMaxSize,
        })),
{
    if size == 0 {
        return Err(LavaFlowError::InvalidAllocationRequest { size, reason: AllocationReason::ZeroSize });
    }
    if size > max_allocation_size {
        return Err(
            LavaFlowError::InvalidAllocationRequest { size, reason: AllocationReason::ExceedsMaxSize },
        );
    }
    Ok(())
}

/// An explicit cap clamped to the hard limit; `0` selects the hard limit.
pub open spec fn clamp_cap(requested: usize, hard: usize) -> usize {
    if requested == 0 {
        hard
    } else if requested < hard {
        requested
    } else {
        hard
    }
}

impl Allocator {
    /// The effective cap.
    pub closed spec fn cap(&self) -> usize {
        self.max_allocation_size
    }

    /// Creates an allocator whose cap comes from its configuration text, as read from the
    /// `LAVA_FLOW_MAX_CPU_ALLOCATION_SIZE` environment variable by the caller.
    pub fn from_configured_cap(raw: Option<&str>) -> (r: Self)
        ensures
            0 < r.cap() <= isize::MAX,
            exists|hard: usize|
                is_platform_hard_limit(hard) && r.cap() == #[trigger] configured_cap(text_view(raw), hard),
            r.cap() == configured_cap(text_view(raw), platform_hard_limit()),
    {
        let hard = hard_max_cpu_allocation_size();
        let cap = parse_cpu_allocation_cap(raw, hard);
        Allocator { max_allocation_size: cap }
    }

    /// Creates an allocator with an explicit cap; `0` means the platform hard limit, and
    /// larger values are clamped to it.
    pub fn with_max_allocation_size(max_allocation_size: usize) -> (r: Self)
        ensures
            0 < r.cap() <= isize::MAX,
            max_allocation_size != 0 ==> r.cap() <= max_allocation_size,
            max_allocation_size != 0 && max_allocation_size <= r.cap() ==> r.cap()
                == max_allocation_size,
            exists|hard: usize|
                is_platform_hard_limit(hard) && r.cap() == #[trigger] clamp_cap(max_allocation_size, hard),
            r.cap() == clamp_cap(max_allocation_size, platform_hard_limit()),
    {
        let hard = hard_max_cpu_allocation_size();
        let capped = if max_allocation_size == 0 {
            hard
        } else if max_allocation_size < hard {
            max_allocation_size
        } else {
            hard
        };
        assert(capped == clamp_cap(max_allocation_size, hard));
        Allocator { max_allocation_size: capped }
    }

    /// Returns the effective maximum CPU allocation size in bytes.
    pub fn max_allocation_size(&self) -> (r: usize)
        ensures
            r == self.cap(),
    {
        self.max_allocation_size
    }

    /// Allocates a zeroed buffer of `size` bytes; fails on zero and above the cap.
    pub fn allocate(&self, size: usize) -> (r: Result<MemoryBuffer>)
        ensures
            r is Ok <==> (0 < size <= self.cap()),
            r matches Ok(b) ==> b.contents() == Seq::new(size as nat, |i: int| 0u8),
            size == 0 ==> (r matches Err(e) && e == (LavaFlowError::InvalidAllocationRequest {
                size,
                reason: AllocationReason::ZeroSize,
            })),
            size > self.cap() ==> (r matches Err(e) && e == (LavaFlowError::InvalidAllocationRequest {
                size,
                reason: AllocationReason::ExceedsMaxSize,
            })),
    {
        validate_size(size, self.max_allocation_size)?;
        Ok(MemoryBuffer { bytes: zeroed_bytes(size) })
    }
}

} // verus!
