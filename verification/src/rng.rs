//! Randomness for spawning and palette choice, drawn from the same global
//! generator the rest of the game uses.

use vstd::prelude::*;

verus! {

/// Relies on `quad_rand::gen_range::<u32>`: it draws a pseudo-random `u32`,
/// maps it into `[low, high)` through `f64` arithmetic and casts back.
/// Rounding in that multiplication can land on `high` itself, so only
/// membership in the closed range `[lo, hi]` is promised of the draw.
#[verifier::external_body]
pub(crate) fn rand_between(lo: u32, hi: u32) -> (r: u32)
    requires
        lo <= hi,
    ensures
        lo <= r <= hi,
{
    quad_rand::gen_range(lo, hi)
}

/// A draw centered on zero, anywhere in `[-range, range]`.
pub(crate) fn rand_centered(range: u32) -> (r: i64)
    requires
        range <= 1_000_000_000,
    ensures
        -(range as int) <= r <= range as int,
{
    let u = rand_between(0, 2 * range);
    u as i64 - range as i64
}

} // verus!
