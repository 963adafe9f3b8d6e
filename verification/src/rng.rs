use vstd::prelude::*;

verus! {

/// Calls macroquad's `rand::gen_range` on `usize` bounds. Its source divides
/// a pseudo-random `u32` by 2^32 and scales it into `[low, high)` in `f64`,
/// then truncates; for bounds up to 2^16 the rounding cannot reach `high`,
/// so the contract claims that the result lies in `[low, high)`. Which
/// number comes out depends on the generator's hidden state, so nothing
/// more is stated.
#[verifier::external_body]
pub(crate) fn random_index(low: usize, high: usize) -> (r: usize)
    requires
        low < high,
        high <= 65536,
    ensures
        low <= r < high,
{
    macroquad::rand::gen_range(low, high)
}

} // verus!
