//! The semantics the guest function is built to have, as a host-side model,
//! and the check an embedding runs on what came back from a real invocation.

use vstd::prelude::*;

verus! {

/// Wrap-around successor of a 64-bit word: the value a 64-bit add of one
/// leaves in memory.
pub open spec fn wrapped_increment(v: u64) -> u64 {
    if v == 0xffff_ffff_ffff_ffff {
        0
    } else {
        (v + 1) as u64
    }
}

/// Executable wrap-around successor.
pub fn increment_wrapping(v: u64) -> (r: u64)
    ensures
        r == wrapped_increment(v),
{
    if v == u64::MAX {
        0
    } else {
        v + 1
    }
}

/// The guest function's effect on the word it is pointed at: read the word,
/// store the word plus one (wrapping) back, and hand the original value out.
/// A sequential load-modify-store, not an atomic operation.
pub fn fetch_and_increment(word: &mut u64) -> (r: u64)
    ensures
        r == *old(word),
        *final(word) == wrapped_increment(*old(word)),
{
    let previous = *word;
    if *word == u64::MAX {
        *word = 0;
    } else {
        *word = *word + 1;
    }
    previous
}

/// Two invocations in a row on the same word: the second returns the
/// successor of what the first returned, and the word ends two steps on.
pub proof fn lemma_fetch_and_increment_chain(v: u64)
    ensures
        wrapped_increment(wrapped_increment(v)) == if v == u64::MAX - 1 {
            0u64
        } else if v == u64::MAX {
            1u64
        } else {
            (v + 2) as u64
        },
{
}

/// Whether one observed round trip is the one the guest function promises:
/// the call returned the word's original value and left its successor in
/// place.
pub fn round_trip_holds(original: u64, returned: u64, after: u64) -> (ok: bool)
    ensures
        ok <==> (returned == original && after == wrapped_increment(original)),
{
    returned == original && after == increment_wrapping(original)
}

} // verus!
