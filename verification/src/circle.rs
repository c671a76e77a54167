//! The circle inside a square: random points of a square canvas, and the share of them
//! that fall inside the inscribed circle.

use crate::estimate::Estimate;
use crate::source::draw_below;
use crate::tally::Tally;
use rand::rngs::StdRng;
use vstd::prelude::*;

verus! {

/// Width of the canvas, in pixels.
pub const WIDTH: u32 = 512;

/// Height of the canvas, in pixels.
pub const HEIGHT: u32 = 512;

/// A pixel position. It is on the canvas when `x < WIDTH` and `y < HEIGHT`.
#[derive(Clone, Copy, Debug, PartialEq, Eq, Structural)]
pub struct Point {
    pub x: u32,
    pub y: u32,
}

impl Point {
    /// The position is one of the canvas.
    pub open spec fn on_canvas(self) -> bool {
        self.x < WIDTH && self.y < HEIGHT
    }
}

/// The value `val / (max - min) * (new_max - new_min) + new_min`, multiplied by
/// `max - min` so that it is an integer.
pub open spec fn spec_map(val: int, min: int, max: int, new_min: int, new_max: int) -> int {
    val * (new_max - new_min) + new_min * (max - min)
}

/// Carries `val` from a range of length `max - min` that starts at zero over to the
/// range from `new_min` to `new_max`.
///
/// The exact image is the returned numerator divided by `max - min`.
pub fn map(val: i32, min: i32, max: i32, new_min: i32, new_max: i32) -> (num: i128)
    ensures
        num == spec_map(val as int, min as int, max as int, new_min as int, new_max as int),
{
    let range: i128 = (max as i128) - (min as i128);
    let new_range: i128 = (new_max as i128) - (new_min as i128);
    assert(-0x1_0000_0000_0000_0000 <= val * new_range <= 0x1_0000_0000_0000_0000
        && -0x1_0000_0000_0000_0000 <= new_min * range <= 0x1_0000_0000_0000_0000)
        by (nonlinear_arith)
        requires
            -0x8000_0000 <= val <= 0x8000_0000,
            -0x8000_0000 <= new_min <= 0x8000_0000,
            -0x1_0000_0000 <= range <= 0x1_0000_0000,
            -0x1_0000_0000 <= new_range <= 0x1_0000_0000,
    ;
    (val as i128) * new_range + (new_min as i128) * range
}

/// The pixel, carried to the square from -1 to 1 in both directions, lies at a distance
/// of less than 1 from the origin.
///
/// With `u / WIDTH` and `v / HEIGHT` the carried coordinates, this is
/// `(u / WIDTH)^2 + (v / HEIGHT)^2 < 1` with the denominators cleared.
pub open spec fn spec_inside_circle(p: Point) -> bool {
    let u = spec_map(p.x as int, 0, WIDTH as int, -1, 1);
    let v = spec_map(p.y as int, 0, HEIGHT as int, -1, 1);
    u * u * (HEIGHT * HEIGHT) + v * v * (WIDTH * WIDTH) < (WIDTH * WIDTH) * (HEIGHT * HEIGHT)
}

/// Tells whether a pixel lies inside the circle inscribed in the canvas.
///
/// A position off the canvas is never inside.
pub fn inside_circle(p: Point) -> (inside: bool)
    ensures
        inside == spec_inside_circle(p),
        inside ==> p.on_canvas(),
{
    let ghost u = spec_map(p.x as int, 0, WIDTH as int, -1, 1);
    let ghost v = spec_map(p.y as int, 0, HEIGHT as int, -1, 1);
    if p.x >= WIDTH || p.y >= HEIGHT {
        assert(u * u >= 512 * 512 || v * v >= 512 * 512) by (nonlinear_arith)
            requires
                u >= 512 || v >= 512,
        ;
        assert(u * u >= 0 && v * v >= 0) by (nonlinear_arith);
        return false;
    }
    let a: i128 = map(p.x as i32, 0, WIDTH as i32, -1, 1);
    let b: i128 = map(p.y as i32, 0, HEIGHT as i32, -1, 1);
    assert(0 <= a * a <= 512 * 512 && 0 <= b * b <= 512 * 512) by (nonlinear_arith)
        requires
            -512 <= a <= 512,
            -512 <= b <= 512,
    ;
    let height2: i128 = (HEIGHT as i128) * (HEIGHT as i128);
    let width2: i128 = (WIDTH as i128) * (WIDTH as i128);
    a * a * height2 + b * b * width2 < width2 * height2
}

/// The estimate `4 * hits / total`.
pub open spec fn spec_circle_ratio(hits: nat, total: nat) -> Estimate {
    Estimate { num: (4 * hits) as u128, den: total as u128 }
}

/// The running ratio of the experiment: `4 * hits / total`.
///
/// With no trials at all the ratio is `0 / 0`, not a number.
pub fn circle_ratio(hits: u64, total: u64) -> (estimate: Estimate)
    ensures
        estimate == spec_circle_ratio(hits as nat, total as nat),
        estimate.num == 4 * hits,
        estimate.den == total,
        hits <= total && total > 0 ==> estimate.spec_within(0, 4),
        total == 0 && hits == 0 ==> estimate.is_nan(),
{
    let num: u128 = 4 * (hits as u128);
    Estimate { num, den: total as u128 }
}

/// Number of the given points that lie inside the circle.
pub open spec fn spec_hits(points: Seq<Point>) -> nat
    decreases points.len(),
{
    if points.len() == 0 {
        0
    } else {
        spec_hits(points.drop_last()) + if spec_inside_circle(points.last()) {
            1nat
        } else {
            0nat
        }
    }
}

/// Every one of the given points is on the canvas.
pub open spec fn all_on_canvas(points: Seq<Point>) -> bool {
    forall|i: int| 0 <= i < points.len() ==> (#[trigger] points[i]).on_canvas()
}

/// Draws one pixel of the canvas.
pub fn sample_point(rng: &mut StdRng) -> (p: Point)
    ensures
        p.on_canvas(),
{
    let x: u64 = draw_below(rng, WIDTH as u64);
    let y: u64 = draw_below(rng, HEIGHT as u64);
    Point { x: x as u32, y: y as u32 }
}

/// One round of the experiment: draws a pixel, records in the tally whether it lies
/// inside the circle, and returns the pixel together with the estimate from all rounds
/// recorded so far.
pub fn throw(tally: &mut Tally, rng: &mut StdRng) -> (round: (Point, Estimate))
    requires
        old(tally).trials() < u64::MAX,
    ensures
        round.0.on_canvas(),
        final(tally).trials() == old(tally).trials() + 1,
        final(tally).hits() == old(tally).hits() + if spec_inside_circle(round.0) {
            1int
        } else {
            0int
        },
        round.1 == spec_circle_ratio(final(tally).hits() as nat, final(tally).trials() as nat),
        round.1.spec_within(0, 4),
{
    let p = sample_point(rng);
    tally.record(inside_circle(p));
    (p, circle_ratio(tally.hits(), tally.trials()))
}

/// Estimates π from `iterations` random pixels as `4 * hits / iterations`, where `hits`
/// counts the pixels inside the circle.
///
/// Whatever pixels are drawn, the estimate lies between 0 and 4. With no iterations it
/// is `0 / 0`, not a number.
pub fn circle_inside_square(iterations: u64, rng: &mut StdRng) -> (estimate: Estimate)
    ensures
        exists|points: Seq<Point>|
            points.len() == iterations && #[trigger] all_on_canvas(points) && estimate
                == spec_circle_ratio(spec_hits(points), iterations as nat),
        estimate.den == iterations,
        estimate.num <= 4 * iterations,
        iterations > 0 ==> estimate.spec_within(0, 4),
        iterations == 0 ==> estimate.is_nan(),
{
    let mut tally = Tally::new();
    let ghost mut points: Seq<Point> = Seq::empty();
    let mut i: u64 = 0;
    while i < iterations
        invariant
            i <= iterations,
            tally.trials() == i,
            tally.hits() == spec_hits(points),
            points.len() == i,
            all_on_canvas(points),
        decreases iterations - i,
    {
        let (p, _) = throw(&mut tally, rng);
        proof {
            assert(points.push(p).drop_last() =~= points);
            points = points.push(p);
        }
        i = i + 1;
    }
    circle_ratio(tally.hits(), tally.trials())
}

/// The circle estimate is bounded: since the hits are among the trials, it lies between
/// 0 and 4 whenever there was a trial at all.
pub proof fn circle_ratio_is_bounded(hits: u64, total: u64)
    requires
        hits <= total,
        total > 0,
    ensures
        spec_circle_ratio(hits as nat, total as nat).spec_within(0, 4),
{
}

/// The number of hits among some points is at most the number of points.
pub proof fn hits_are_among_points(points: Seq<Point>)
    ensures
        spec_hits(points) <= points.len(),
    decreases points.len(),
{
    if points.len() > 0 {
        hits_are_among_points(points.drop_last());
    }
}

} // verus!
