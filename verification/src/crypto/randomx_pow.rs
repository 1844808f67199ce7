//! The search for a proof of work: which input is hashed for a nonce,
//! when a hash is good enough, and how the search goes on. The hash
//! itself is computed elsewhere.

use crate::wire::append_bytes;
use vstd::prelude::*;

verus! {

/// The number of leading zero bytes that a hash must have.
pub const DIFFICULTY_ZEROS: usize = 5;

/// Byte `k` (0 is the lowest) of a nonce.
pub open spec fn nonce_byte(nonce: u64, k: int) -> u8 {
    ((nonce >> ((8 * k) as u64)) & 0xff) as u8
}

/// What is hashed for a nonce: the seed, then the nonce in eight bytes,
/// the lowest first.
pub open spec fn spec_pow_input(seed: Seq<u8>, nonce: u64) -> Seq<u8> {
    seed + Seq::new(8, |k: int| nonce_byte(nonce, k))
}

/// A hash is good enough when its first five bytes are zero, or all of
/// them where it has fewer.
pub open spec fn spec_meets_difficulty(hash: Seq<u8>) -> bool {
    forall|i: int| 0 <= i < hash.len() && i < DIFFICULTY_ZEROS ==> hash[i] == 0
}

/// How a search goes on after one hash.
#[derive(Debug, PartialEq, Eq)]
pub enum PowStep {
    /// The hash is good enough: this nonce solves the puzzle.
    Solved { hash: Vec<u8>, nonce: u64 },
    /// Hash the input of this nonce next.
    Try(u64),
    /// Every nonce has been tried.
    Exhausted,
}

/// What is hashed for a nonce.
pub fn pow_input(seed: &[u8], nonce: u64) -> (input: Vec<u8>)
    ensures
        input@ == spec_pow_input(seed@, nonce),
{
    let mut input: Vec<u8> = Vec::new();
    append_bytes(&mut input, seed);
    let mut k: u64 = 0;
    while k < 8
        invariant
            k <= 8,
            input@.len() == seed@.len() + k,
            forall|j: int| 0 <= j < seed@.len() ==> input@[j] == seed@[j],
            forall|j: int| 0 <= j < k ==> input@[seed@.len() + j] == nonce_byte(nonce, j),
        decreases 8 - k,
    {
        let shifted: u64 = (nonce >> (8 * k)) & 0xff;
        assert(shifted < 256) by (bit_vector)
            requires
                shifted == (nonce >> (8 * k)) & 0xff,
        ;
        input.push(shifted as u8);
        k += 1;
    }
    assert(input@ =~= spec_pow_input(seed@, nonce));
    input
}

/// Whether a hash is good enough.
pub fn meets_difficulty(hash: &[u8]) -> (good: bool)
    ensures
        good == spec_meets_difficulty(hash@),
{
    let mut i: usize = 0;
    while i < hash.len() && i < DIFFICULTY_ZEROS
        invariant
            i <= hash@.len(),
            i <= DIFFICULTY_ZEROS,
            forall|j: int| 0 <= j < i ==> hash@[j] == 0,
        decreases hash@.len() - i,
    {
        if hash[i] != 0 {
            return false;
        }
        i += 1;
    }
    true
}

/// How the search goes on after the input of `nonce` hashed to `hash`:
/// it ends where the hash is good enough, and goes on with the next
/// nonce otherwise, as long as there is one.
pub fn after_hash(hash: Vec<u8>, nonce: u64) -> (step: PowStep)
    ensures
        spec_meets_difficulty(hash@) ==> step == (PowStep::Solved { hash, nonce }),
        !spec_meets_difficulty(hash@) && nonce < u64::MAX ==> step == PowStep::Try(
            (nonce + 1) as u64,
        ),
        !spec_meets_difficulty(hash@) && nonce == u64::MAX ==> step == PowStep::Exhausted,
{
    if meets_difficulty(hash.as_slice()) {
        PowStep::Solved { hash, nonce }
    } else if nonce < u64::MAX {
        PowStep::Try(nonce + 1)
    } else {
        PowStep::Exhausted
    }
}

} // verus!
