//! Randomness, drawn from rand's thread-local generator. Nothing is promised
//! of a draw beyond its range, so every caller is verified for all of them.
use vstd::prelude::*;
use rand::Rng;
use rand::seq::SliceRandom;

verus! {

/// Relies on rand::Rng::gen_range on `thread_rng()`: a value in `lo..hi`
/// (it panics only on an empty range, which `requires` leaves out).
#[verifier::external_body]
pub(crate) fn random_range(lo: i64, hi: i64) -> (r: i64)
    requires
        lo < hi,
    ensures
        lo <= r < hi,
{
    rand::thread_rng().gen_range(lo..hi)
}

/// Relies on rand::seq::SliceRandom::shuffle on `thread_rng()`: it only swaps
/// elements, so the result is a permutation of the input.
#[verifier::external_body]
pub(crate) fn shuffle(v: &mut Vec<usize>)
    ensures
        final(v)@.len() == old(v)@.len(),
        final(v)@.to_multiset() == old(v)@.to_multiset(),
{
    v.shuffle(&mut rand::thread_rng())
}

/// A uniform percentage roll, 1 to 100.
pub fn roll_percent() -> (r: u32)
    ensures
        1 <= r <= 100,
{
    random_range(1, 101) as u32
}

} // verus!
