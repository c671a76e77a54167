//! The source of randomness: the standard generator of the `rand` crate.
//!
//! Nothing is proved about how the generator produces its values. The experiments rely on
//! one property only, the range of a draw, and they are verified for every value a draw
//! may take within that range.

use rand::rngs::StdRng;
use rand::Rng;
use vstd::prelude::*;

verus! {

/// Trusted: declares `rand::rngs::StdRng` to the verifier as an opaque type. Nothing is
/// claimed of a generator's state; it is only handed on to `draw_below`.
#[verifier::external_type_specification]
#[verifier::external_body]
pub struct ExStdRng(rand::rngs::StdRng);

/// Number of equally likely values of a draw from the unit interval: a draw `d` stands
/// for the real number `d / RESOLUTION` in `[0, 1)`.
pub const RESOLUTION: u64 = 4_503_599_627_370_496;

/// Draws an integer from `[0, bound)`.
///
/// Trusted: the body is `rand::Rng::gen_range(0, bound)` on 64-bit unsigned integers.
/// The contract claims what the method documents: the value is at least the lower end
/// and below the upper end of the range. The method panics on an empty range, which
/// the precondition rules out.
#[verifier::external_body]
pub(crate) fn draw_below(rng: &mut StdRng, bound: u64) -> (value: u64)
    requires
        bound > 0,
    ensures
        value < bound,
{
    rng.gen_range(0u64, bound)
}

/// Draws a point of the unit interval, as a multiple of `1 / RESOLUTION`.
pub fn draw_unit(rng: &mut StdRng) -> (value: u64)
    ensures
        value < RESOLUTION,
{
    draw_below(rng, RESOLUTION)
}

} // verus!
