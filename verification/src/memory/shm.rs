//! Naming of the POSIX shared-memory objects that back CPU buffers, and the choice of the
//! random part of a name among the entropy sources that answered.

use vstd::prelude::*;
use crate::text::{decimal_string, hex_digits, push_decimal, push_hex_digits, push_str};

verus! {

/// The name of a shared-memory object: `/lava-flow-<pid>-<counter>-<random>`, the random part
/// as sixteen lowercase hexadecimal digits.
pub open spec fn spec_shm_name(pid: u32, counter: u64, random: u64) -> Seq<char> {
    "/lava-flow-"@ + decimal_string(pid as nat) + "-"@ + decimal_string(counter as nat) + "-"@
        + hex_digits(random as nat, 16)
}

/// Builds the name of a shared-memory object from the process id, a per-process counter and
/// a random number.
pub fn shm_name(pid: u32, counter: u64, random: u64) -> (r: String)
    ensures
        r@ == spec_shm_name(pid, counter, random),
{
    let mut name = String::new();
    push_str(&mut name, "/lava-flow-");
    push_decimal(&mut name, pid as u64);
    push_str(&mut name, "-");
    push_decimal(&mut name, counter);
    push_str(&mut name, "-");
    push_hex_digits(&mut name, random, 16);
    proof {
        reveal_strlit("/lava-flow-");
        reveal_strlit("-");
        assert(name@ =~= spec_shm_name(pid, counter, random));
    }
    name
}

/// What an entropy source answered: the number of bytes it wrote and the value they form.
pub type EntropyRead = Option<(usize, u64)>;

/// The random number of a name: the `getrandom` value when it filled eight bytes, else the
/// `/dev/urandom` value when it did, else the clock's nanoseconds mixed with the process id
/// shifted into the upper half.
pub open spec fn spec_random_u64(getrandom: EntropyRead, urandom: EntropyRead, nanos: u64, pid: u32) -> u64 {
    if let Some((8, value)) = getrandom {
        value
    } else if let Some((8, value)) = urandom {
        value
    } else {
        nanos ^ ((pid as u64) << 32u64)
    }
}

/// Whether an entropy source filled all eight bytes, so that the later sources need not be
/// asked.
pub fn is_full_read(read: EntropyRead) -> (r: bool)
    ensures
        r == (read matches Some((n, _)) && n == 8),
{
    match read {
        Some((n, _)) => n == 8,
        None => false,
    }
}

/// Chooses the random number of a name from the answers of the entropy sources, in order of
/// preference; the clock is the last resort.
pub fn choose_random_u64(getrandom: EntropyRead, urandom: EntropyRead, nanos: u64, pid: u32) -> (r: u64)
    ensures
        r == spec_random_u64(getrandom, urandom, nanos, pid),
{
    if let Some((n, value)) = getrandom {
        if n == 8 {
            return value;
        }
    }
    if let Some((n, value)) = urandom {
        if n == 8 {
            return value;
        }
    }
    nanos ^ ((pid as u64) << 32u64)
}

} // verus!
