//! Buffon's needle: a needle of unit length dropped on a plane ruled with parallel lines
//! one unit apart.
//!
//! Only the direction across the lines matters. A drop is described by two lengths, both
//! in multiples of `1 / RESOLUTION` of the needle's length: the offset of the needle's start
//! from the line at zero, and the reach of the needle, which is its length times the
//! cosine of the angle at which it fell.

use crate::estimate::Estimate;
use crate::source::{draw_below, RESOLUTION};
use crate::tally::Tally;
use rand::rngs::StdRng;
use vstd::prelude::*;

verus! {

/// Length of the needle: one unit.
pub const NEEDLE_LENGTH: u64 = RESOLUTION;

/// Distance between two neighbouring lines: one unit.
pub const PARALLEL_WIDTH: u64 = RESOLUTION;

/// The needle crosses a line: its far end, at `start + reach`, lies outside the strip
/// that begins at zero and ends before `PARALLEL_WIDTH`.
pub open spec fn spec_crosses(start: u64, reach: i64) -> bool {
    start + reach < 0 || start + reach >= PARALLEL_WIDTH
}

/// Number of crossings among the drops with the given starts and reaches.
pub open spec fn spec_crossings(starts: Seq<u64>, reaches: Seq<i64>) -> nat
    decreases reaches.len(),
{
    if reaches.len() == 0 || starts.len() != reaches.len() {
        0
    } else {
        spec_crossings(starts.drop_last(), reaches.drop_last()) + if spec_crosses(
            starts.last(),
            reaches.last(),
        ) {
            1nat
        } else {
            0nat
        }
    }
}

/// Every one of the given starts lies in the strip between two lines.
pub open spec fn all_in_strip(starts: Seq<u64>) -> bool {
    forall|i: int| 0 <= i < starts.len() ==> #[trigger] starts[i] < PARALLEL_WIDTH
}

/// The estimate `(2 * iterations * length) / (crossings * width)`.
pub open spec fn spec_needle_ratio(iterations: nat, crossings: nat) -> Estimate {
    Estimate {
        num: (2 * iterations * NEEDLE_LENGTH) as u128,
        den: (crossings * PARALLEL_WIDTH) as u128,
    }
}

/// Tells whether a needle that starts at `start` and reaches `reach` further crosses a
/// line.
pub fn needle_crosses(start: u64, reach: i64) -> (crosses: bool)
    ensures
        crosses == spec_crosses(start, reach),
{
    let end: i128 = (start as i128) + (reach as i128);
    end < 0 || end >= PARALLEL_WIDTH as i128
}

/// The estimate of the experiment: `(2 * iterations * length) / (crossings * width)`.
///
/// When no needle crossed a line the denominator is zero: the estimate is +∞ after at
/// least one drop and not a number after none.
pub fn needle_ratio(iterations: u64, crossings: u64) -> (estimate: Estimate)
    ensures
        estimate == spec_needle_ratio(iterations as nat, crossings as nat),
        estimate.num == 2 * iterations * NEEDLE_LENGTH,
        estimate.den == crossings * PARALLEL_WIDTH,
        crossings > 0 ==> estimate.is_finite(),
        crossings == 0 && iterations > 0 ==> estimate.is_infinite(),
        crossings == 0 && iterations == 0 ==> estimate.is_nan(),
{
    proof {
        if iterations > 0 {
            no_crossing_is_infinite(iterations);
        }
        if crossings > 0 {
            some_crossing_is_finite(iterations, crossings);
        }
    }
    assert(2 * iterations * NEEDLE_LENGTH <= u128::MAX && crossings * PARALLEL_WIDTH
        <= u128::MAX) by (nonlinear_arith)
        requires
            iterations <= u64::MAX,
            crossings <= u64::MAX,
            NEEDLE_LENGTH == 4_503_599_627_370_496,
            PARALLEL_WIDTH == 4_503_599_627_370_496,
    ;
    let num: u128 = 2 * (iterations as u128) * (NEEDLE_LENGTH as u128);
    let den: u128 = (crossings as u128) * (PARALLEL_WIDTH as u128);
    Estimate { num, den }
}

/// Drops one needle per given reach, each at a random start within the strip, and
/// estimates π as `(2 * iterations * length) / (crossings * width)`, where `iterations`
/// is the number of needles and `crossings` counts those that cross a line.
///
/// Whatever starts are drawn, the estimate is a number exactly when some needle
/// crossed; otherwise it is +∞, or not a number if no needle was dropped.
pub fn buffons_needle(reaches: &Vec<i64>, rng: &mut StdRng) -> (estimate: Estimate)
    ensures
        exists|starts: Seq<u64>|
            starts.len() == reaches.len() && #[trigger] all_in_strip(starts) && estimate
                == spec_needle_ratio(reaches.len() as nat, spec_crossings(starts, reaches@)),
        estimate.num == 2 * reaches.len() * NEEDLE_LENGTH,
        estimate.den <= reaches.len() * PARALLEL_WIDTH,
        reaches.len() == 0 ==> estimate.is_nan(),
        reaches.len() > 0 ==> estimate.is_finite() || estimate.is_infinite(),
{
    let mut tally = Tally::new();
    let ghost mut starts: Seq<u64> = Seq::empty();
    let mut i: usize = 0;
    while i < reaches.len()
        invariant
            i <= reaches.len(),
            tally.trials() == i,
            starts.len() == i,
            all_in_strip(starts),
            tally.hits() == spec_crossings(starts, reaches@.take(i as int)),
        decreases reaches.len() - i,
    {
        let start = draw_below(rng, PARALLEL_WIDTH);
        let reach = reaches[i];
        tally.record(needle_crosses(start, reach));
        proof {
            assert(starts.push(start).drop_last() =~= starts);
            assert(reaches@.take(i + 1).drop_last() =~= reaches@.take(i as int));
            starts = starts.push(start);
        }
        i = i + 1;
    }
    assert(reaches@.take(i as int) =~= reaches@);
    let crossings = tally.hits();
    assert(crossings * PARALLEL_WIDTH <= reaches.len() * PARALLEL_WIDTH && (reaches.len() > 0
        ==> 2 * reaches.len() * NEEDLE_LENGTH > 0)) by (nonlinear_arith)
        requires
            0 <= crossings <= reaches.len(),
            PARALLEL_WIDTH == 4_503_599_627_370_496,
            NEEDLE_LENGTH == 4_503_599_627_370_496,
    ;
    needle_ratio(tally.trials(), crossings)
}

/// Without a single crossing the estimate is +∞, whatever the number of needles
/// dropped, as long as one was dropped.
pub proof fn no_crossing_is_infinite(iterations: u64)
    requires
        iterations >= 1,
    ensures
        spec_needle_ratio(iterations as nat, 0).is_infinite(),
{
    assert(0 < 2 * iterations * NEEDLE_LENGTH <= u128::MAX) by (nonlinear_arith)
        requires
            1 <= iterations <= u64::MAX,
            NEEDLE_LENGTH == 4_503_599_627_370_496,
    ;
}

/// With at least one crossing the estimate is a number.
pub proof fn some_crossing_is_finite(iterations: u64, crossings: u64)
    requires
        crossings >= 1,
    ensures
        spec_needle_ratio(iterations as nat, crossings as nat).is_finite(),
{
    assert(0 < crossings * PARALLEL_WIDTH <= u128::MAX) by (nonlinear_arith)
        requires
            1 <= crossings <= u64::MAX,
            PARALLEL_WIDTH == 4_503_599_627_370_496,
    ;
}

} // verus!
