//! Trusted access to the host's pseudo-random number generator.

use vstd::prelude::*;

verus! {

/// Relies on `macroquad::rand::srand` (quad-rand): reseeds the global
/// pseudo-random generator. It returns nothing and nothing is promised of it.
#[verifier::external_body]
pub(crate) fn seed_random(seed: u64) {
    macroquad::rand::srand(seed);
}

/// Relies on `macroquad::rand::gen_range` (quad-rand): for `i16` arguments it
/// computes `low + (high - low) * r` in `f64` with `r` drawn from `[0, 1)` and
/// truncates toward zero, so for `0 <= low < high` the result lies in
/// `[low, high)`. Which value comes back depends on the generator's hidden
/// state, so nothing more is promised.
#[verifier::external_body]
pub(crate) fn random_in_range(low: i16, high: i16) -> (r: i16)
    requires
        0 <= low < high,
    ensures
        low <= r < high,
{
    macroquad::rand::gen_range(low, high)
}

} // verus!
