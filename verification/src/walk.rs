//! The one-dimensional random walk: unit steps to the right or to the left, and the mean
//! distance from the origin at which such walks end.

use crate::estimate::Estimate;
use crate::source::{draw_unit, RESOLUTION};
use rand::rngs::StdRng;
use vstd::prelude::*;

verus! {

/// The middle of the unit interval, in multiples of `1 / RESOLUTION`.
pub const HALF: u64 = RESOLUTION / 2;

/// The position after one step: a draw from the lower half of the unit interval moves
/// the walker one unit in the positive direction, any other draw one unit in the
/// negative direction.
pub open spec fn spec_step(position: int, flip: u64) -> int {
    if flip < HALF {
        position + 1
    } else {
        position - 1
    }
}

/// The position at the end of the walk whose steps are decided by `flips`, in order,
/// starting from the origin.
pub open spec fn spec_position(flips: Seq<u64>) -> int
    decreases flips.len(),
{
    if flips.len() == 0 {
        0
    } else {
        spec_step(spec_position(flips.drop_last()), flips.last())
    }
}

/// The distance from the origin at the end of the walk decided by `flips`.
pub open spec fn spec_distance(flips: Seq<u64>) -> nat {
    let position = spec_position(flips);
    if position < 0 {
        (-position) as nat
    } else {
        position as nat
    }
}

/// The sum of the final distances of the given walks.
pub open spec fn spec_total_distance(paths: Seq<Seq<u64>>) -> nat
    decreases paths.len(),
{
    if paths.len() == 0 {
        0
    } else {
        spec_total_distance(paths.drop_last()) + spec_distance(paths.last())
    }
}

/// The draws of one walk of `steps` steps: as many draws as steps, each from the unit
/// interval.
pub open spec fn is_path(flips: Seq<u64>, steps: nat) -> bool {
    flips.len() == steps && forall|i: int| 0 <= i < flips.len() ==> #[trigger] flips[i] < RESOLUTION
}

/// Every one of the given walks has `steps` steps.
pub open spec fn all_paths(paths: Seq<Seq<u64>>, steps: nat) -> bool {
    forall|i: int| 0 <= i < paths.len() ==> is_path(#[trigger] paths[i], steps)
}

/// Moves the walker by one step, decided by a draw from the unit interval.
pub fn step(position: i128, flip: u64) -> (next: i128)
    requires
        i128::MIN < position < i128::MAX,
    ensures
        next == spec_step(position as int, flip),
{
    if flip < HALF {
        position + 1
    } else {
        position - 1
    }
}

/// Walks `steps` steps from the origin and returns the distance from the origin at
/// which the walk ends.
///
/// Whatever is drawn, the distance is at most `steps` and differs from it by an even
/// number.
pub fn walk(steps: u64, rng: &mut StdRng) -> (distance: u64)
    ensures
        exists|flips: Seq<u64>|
            is_path(flips, steps as nat) && distance == #[trigger] spec_distance(flips),
        distance <= steps,
        (steps - distance) % 2 == 0,
{
    let mut position: i128 = 0;
    let ghost mut flips: Seq<u64> = Seq::empty();
    let mut i: u64 = 0;
    while i < steps
        invariant
            i <= steps,
            is_path(flips, i as nat),
            position == spec_position(flips),
            -i <= position <= i,
            (i - position) % 2 == 0,
        decreases steps - i,
    {
        let flip = draw_unit(rng);
        position = step(position, flip);
        proof {
            assert(flips.push(flip).drop_last() =~= flips);
            flips = flips.push(flip);
        }
        i = i + 1;
    }
    let distance: i128 = if position < 0 {
        -position
    } else {
        position
    };
    assert(distance == spec_distance(flips));
    distance as u64
}

/// What a run of random walks leaves behind: how many walks of how many steps were
/// made, and the sum of the distances at which they ended.
#[derive(Clone, Copy, Debug, PartialEq, Eq, Structural)]
pub struct WalkSummary {
    pub steps: u64,
    pub walks: u64,
    pub total_distance: u128,
}

impl WalkSummary {
    /// Numerator of the estimate `2 * steps / (total_distance / walks)^2`, written as a
    /// single fraction.
    pub open spec fn spec_num(self) -> nat {
        (2 * self.steps * self.walks * self.walks) as nat
    }

    /// Denominator of the estimate `2 * steps / (total_distance / walks)^2`, written as a
    /// single fraction.
    pub open spec fn spec_den(self) -> nat {
        (self.total_distance * self.total_distance) as nat
    }

    /// The estimate `2 * steps / mean^2`, where `mean = total_distance / walks` is the
    /// mean final distance; absent when the numerator or the denominator of the single
    /// fraction exceeds 128 bits.
    pub open spec fn spec_estimate(self) -> Option<Estimate> {
        if self.spec_num() <= u128::MAX && self.spec_den() <= u128::MAX {
            Some(Estimate { num: self.spec_num() as u128, den: self.spec_den() as u128 })
        } else {
            None
        }
    }

    /// The estimate of π from the walks made: `2 * steps / mean^2`, where `mean` is the
    /// mean final distance.
    ///
    /// When all walks ended at the origin the mean is zero and the estimate is +∞.
    /// `None` is returned when the fraction does not fit in 128 bits.
    pub fn estimate(&self) -> (estimate: Option<Estimate>)
        ensures
            estimate == self.spec_estimate(),
    {
        let twice: u128 = 2 * (self.steps as u128);
        let walks: u128 = self.walks as u128;
        let num: Option<u128> = match twice.checked_mul(walks) {
            Some(product) => product.checked_mul(walks),
            None => {
                assert(twice * walks * walks >= twice * walks) by (nonlinear_arith)
                    requires
                        twice * walks > 0,
                        walks >= 0,
                ;
                None
            },
        };
        let den: Option<u128> = self.total_distance.checked_mul(self.total_distance);
        match (num, den) {
            (Some(num), Some(den)) => Some(Estimate { num, den }),
            _ => None,
        }
    }
}

/// Makes `walks` random walks of `steps` steps each and sums up the distances from the
/// origin at which they end.
///
/// Whatever is drawn, the sum is the total of the final distances of `walks` walks of
/// `steps` steps, and so at most `steps * walks`.
pub fn random_walk(steps: u64, walks: u64, rng: &mut StdRng) -> (summary: WalkSummary)
    ensures
        summary.steps == steps,
        summary.walks == walks,
        exists|paths: Seq<Seq<u64>>|
            paths.len() == walks && #[trigger] all_paths(paths, steps as nat)
                && summary.total_distance == spec_total_distance(paths),
        summary.total_distance <= steps * walks,
        (steps * walks - summary.total_distance) % 2 == 0,
{
    let mut total: u128 = 0;
    let ghost mut paths: Seq<Seq<u64>> = Seq::empty();
    let mut i: u64 = 0;
    while i < walks
        invariant
            i <= walks,
            paths.len() == i,
            all_paths(paths, steps as nat),
            total == spec_total_distance(paths),
            total <= steps * i,
            (steps * i - total) % 2 == 0,
        decreases walks - i,
    {
        let distance = walk(steps, rng);
        proof {
            let flips = choose|flips: Seq<u64>|
                is_path(flips, steps as nat) && distance == #[trigger] spec_distance(flips);
            assert(paths.push(flips).drop_last() =~= paths);
            paths = paths.push(flips);
            assert(steps * i + steps == steps * (i + 1) && steps * (i + 1) <= steps * walks
                && steps * walks <= 0xffff_ffff_ffff_ffff * 0xffff_ffff_ffff_ffff)
                by (nonlinear_arith)
                requires
                    i < walks,
                    0 <= steps <= 0xffff_ffff_ffff_ffff,
                    0 <= walks <= 0xffff_ffff_ffff_ffff,
            ;
        }
        total = total + (distance as u128);
        i = i + 1;
    }
    WalkSummary { steps, walks, total_distance: total }
}

/// A walk ends no further from the origin than it has steps, and at a distance that
/// differs from the number of steps by an even number.
pub proof fn distance_is_within_steps(flips: Seq<u64>)
    ensures
        spec_distance(flips) <= flips.len(),
        (flips.len() - spec_distance(flips)) % 2 == 0,
        -flips.len() <= spec_position(flips) <= flips.len(),
        (flips.len() - spec_position(flips)) % 2 == 0,
    decreases flips.len(),
{
    if flips.len() > 0 {
        distance_is_within_steps(flips.drop_last());
    }
}

/// With a single walk the estimate depends on nothing but the distance at which that
/// walk ends: it is `2 * steps / distance^2`, and +∞ when the walk ends at the origin.
pub proof fn single_walk_estimate(steps: u64, flips: Seq<u64>)
    requires
        steps >= 1,
        flips.len() == steps,
    ensures
        spec_total_distance(seq![flips]) == spec_distance(flips),
        ({
            let distance = spec_distance(flips);
            let summary = WalkSummary { steps, walks: 1, total_distance: distance as u128 };
            &&& summary.spec_estimate() == Some(
                Estimate { num: (2 * steps) as u128, den: (distance * distance) as u128 },
            )
            &&& distance == 0 ==> summary.spec_estimate().unwrap().is_infinite()
            &&& distance > 0 ==> summary.spec_estimate().unwrap().is_finite()
        }),
{
    let paths = seq![flips];
    assert(paths.drop_last() =~= Seq::<Seq<u64>>::empty());
    assert(paths.last() == flips);
    assert(spec_total_distance(paths.drop_last()) == 0);
    distance_is_within_steps(flips);
    let distance = spec_distance(flips);
    assert(distance * distance <= 0xffff_ffff_ffff_ffff * 0xffff_ffff_ffff_ffff && (distance > 0
        ==> distance * distance > 0) && 2 * steps * 1 * 1 == 2 * steps) by (nonlinear_arith)
        requires
            0 <= distance <= 0xffff_ffff_ffff_ffff,
    ;
    let summary = WalkSummary { steps, walks: 1, total_distance: distance as u128 };
    assert(summary.spec_den() == distance * distance);
    assert(summary.spec_num() == 2 * steps);
}

} // verus!
