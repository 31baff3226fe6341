//! One jittered outline.

use vstd::prelude::*;
use crate::geometry::{Point, MAX_NUM_SQUARES, SQUARE_H, SQUARE_W, UNITS_PER_PIXEL};
use crate::random::random_range;

verus! {

/// The jitter factor one, which leaves a corner where the plain rectangle has
/// it. Jitter factors are counted in millionths.
pub const JITTER_ONE: i64 = 1_000_000;

/// The factor 0.99, from which the lower jitter bound starts.
pub const JITTER_FLOOR: i64 = 990_000;

/// What one eighth of randomness adds to the jitter's spread for each layer
/// of the stack: a fortieth.
pub const JITTER_STEP: i64 = 25_000;

/// Half the width of the plain rectangle, in units: 60 / 2.2 pixels.
pub const HALF_W: i64 = 3_000_000;

/// Half the height of the plain rectangle, in units: 80 / 2.2 pixels.
pub const HALF_H: i64 = 4_000_000;

/// Least stroke weight, in units: one pixel.
pub const WEIGHT_MIN: i64 = 110_000;

/// Bound above all stroke weights, in units: three pixels.
pub const WEIGHT_MAX: i64 = 330_000;

/// Largest magnitude of a jitter sample whose product with a half extent,
/// taken back from millionths, fits a coordinate.
pub const SAMPLE_LIMIT: i64 = 0x1fff_ffff_ffff_ffff;

/// The scales agree with each other: the half extents are the cell's width
/// and height divided by 2.2, the jitter starts a hundredth below one and
/// spreads by a fifth for each layer at a randomness of eight eighths, and
/// the stroke weights run from one pixel to three.
pub proof fn lemma_scales()
    ensures
        22 * HALF_W == 10 * SQUARE_W * UNITS_PER_PIXEL,
        22 * HALF_H == 10 * SQUARE_H * UNITS_PER_PIXEL,
        100 * JITTER_FLOOR == 99 * JITTER_ONE,
        5 * 8 * JITTER_STEP == JITTER_ONE,
        WEIGHT_MIN == UNITS_PER_PIXEL,
        WEIGHT_MAX == 3 * UNITS_PER_PIXEL,
{
}

/// First bound of the jitter factor for layer `i` of a stack whose randomness
/// is `randomness` eighths.
pub open spec fn jitter_min(randomness: int, i: int) -> int {
    JITTER_FLOOR - JITTER_STEP * randomness * i
}

/// Second bound of the jitter factor for layer `i` of a stack whose
/// randomness is `randomness` eighths.
pub open spec fn jitter_max(randomness: int, i: int) -> int {
    JITTER_ONE + JITTER_STEP * randomness * i
}

/// The smaller of the two bounds: the least factor that can be drawn.
pub open spec fn jitter_low(randomness: int, i: int) -> int {
    vstd::math::min(jitter_min(randomness, i), jitter_max(randomness, i))
}

/// The larger of the two bounds, which no drawn factor reaches.
pub open spec fn jitter_high(randomness: int, i: int) -> int {
    vstd::math::max(jitter_min(randomness, i), jitter_max(randomness, i))
}

/// The two bounds between which the jitter factors of layer `i` are drawn.
/// A negative randomness puts the first bound above the second.
pub fn jitter_bounds(randomness: i32, i: usize) -> (b: (i64, i64))
    requires
        i < MAX_NUM_SQUARES,
    ensures
        b.0 == jitter_min(randomness as int, i as int),
        b.1 == jitter_max(randomness as int, i as int),
        b.0 != b.1,
        -SAMPLE_LIMIT <= b.0 <= SAMPLE_LIMIT,
        -SAMPLE_LIMIT <= b.1 <= SAMPLE_LIMIT,
{
    let per_layer: i64 = JITTER_STEP * (randomness as i64);
    let layer: i64 = i as i64;
    assert(-7 * 25_000 * 0x8000_0000 <= per_layer * layer <= 7 * 25_000 * 0x8000_0000)
        by (nonlinear_arith)
        requires
            -25_000 * 0x8000_0000 <= per_layer <= 25_000 * 0x8000_0000,
            0 <= layer <= 7,
    ;
    assert(per_layer * layer == JITTER_STEP * randomness * i) by (nonlinear_arith)
        requires
            per_layer == JITTER_STEP * randomness,
            layer == i,
    ;
    let spread: i64 = per_layer * layer;
    assert(spread != -5_000) by {
        let whole: int = randomness * i;
        assert(spread == JITTER_STEP * whole) by (nonlinear_arith)
            requires
                spread == JITTER_STEP * randomness * i,
                whole == randomness * i,
        ;
    }
    (JITTER_FLOOR - spread, JITTER_ONE + spread)
}

/// One outline: a closed path of five points, the fifth on the first, and the
/// weight of the stroke that draws it.
pub struct Square {
    points: Vec<Point>,
    weight: i64,
}

/// What a [`Square`] holds, as plain values.
pub struct SquareView {
    pub points: Seq<Point>,
    pub weight: int,
}

/// Whether `p` is the plain rectangle's upper right corner with its
/// horizontal extent scaled by `fx` millionths and its vertical extent by
/// `fy` millionths. Negative factors give the corners on the other sides.
pub open spec fn scaled_corner(p: Point, fx: int, fy: int) -> bool {
    p.x * JITTER_ONE == HALF_W * fx && p.y * JITTER_ONE == HALF_H * fy
}

impl SquareView {
    /// Five points that close the path.
    pub open spec fn wf(self) -> bool {
        self.points.len() == 5 && self.points[4] == self.points[0]
    }

    /// Whether the outline is the one that the eight jitter factors in
    /// `samples` give: two factors for each corner, the horizontal one first,
    /// in the order lower left, lower right, upper right, upper left, and the
    /// first corner once more to close the path.
    pub open spec fn drawn_from(self, samples: Seq<i64>) -> bool {
        &&& samples.len() == 8
        &&& self.points.len() == 5
        &&& scaled_corner(self.points[0], -samples[0], -samples[1])
        &&& scaled_corner(self.points[1], samples[2] as int, -samples[3])
        &&& scaled_corner(self.points[2], samples[4] as int, samples[5] as int)
        &&& scaled_corner(self.points[3], -samples[6], samples[7] as int)
        &&& self.points[4] == self.points[0]
    }

    /// Whether the outline comes from eight jitter factors that are all at
    /// least `low` and below `high`.
    pub open spec fn jittered(self, low: int, high: int) -> bool {
        exists|samples: Seq<i64>|
            {
                &&& #[trigger] self.drawn_from(samples)
                &&& forall|j: int| 0 <= j < 8 ==> low <= #[trigger] samples[j] < high
            }
    }

    /// Whether the stroke is at least one pixel and less than three wide.
    pub open spec fn weighted(self) -> bool {
        WEIGHT_MIN <= self.weight < WEIGHT_MAX
    }

    /// Whether the outline is one that layer `i` of a stack with
    /// `randomness` eighths of randomness can hold.
    pub open spec fn fits_layer(self, randomness: int, i: int) -> bool {
        &&& self.jittered(jitter_low(randomness, i), jitter_high(randomness, i))
        &&& self.weighted()
    }
}

impl View for Square {
    type V = SquareView;

    closed spec fn view(&self) -> SquareView {
        SquareView { points: self.points@, weight: self.weight as int }
    }
}

impl Square {
    #[verifier::type_invariant]
    spec fn closed_path(&self) -> bool {
        self@.wf()
    }

    /// The outline that eight given jitter factors and a stroke weight make.
    pub fn from_samples(samples: [i64; 8], weight: i64) -> (s: Square)
        requires
            forall|j: int| 0 <= j < 8 ==> -SAMPLE_LIMIT <= #[trigger] samples@[j] <= SAMPLE_LIMIT,
        ensures
            s@.drawn_from(samples@),
            s@.weight == weight,
            s@.wf(),
    {
        let w: i64 = HALF_W / JITTER_ONE;
        let h: i64 = HALF_H / JITTER_ONE;
        let first: Point = Point { x: -(w * samples[0]), y: -(h * samples[1]) };
        let mut points: Vec<Point> = Vec::new();
        points.push(first);
        points.push(Point { x: w * samples[2], y: -(h * samples[3]) });
        points.push(Point { x: w * samples[4], y: h * samples[5] });
        points.push(Point { x: -(w * samples[6]), y: h * samples[7] });
        points.push(first);
        Square { points, weight }
    }

    /// A freshly drawn outline for layer `i` of a stack whose randomness is
    /// `randomness` eighths: eight jitter factors between the layer's bounds,
    /// and a stroke weight.
    pub fn new(randomness: i32, i: usize) -> (s: Square)
        requires
            i < MAX_NUM_SQUARES,
        ensures
            s@.fits_layer(randomness as int, i as int),
            s@.wf(),
    {
        let bounds: (i64, i64) = jitter_bounds(randomness, i);
        let min: i64 = bounds.0;
        let max: i64 = bounds.1;
        let x0: i64 = random_range(min, max);
        let y0: i64 = random_range(min, max);
        let x1: i64 = random_range(min, max);
        let y1: i64 = random_range(min, max);
        let x2: i64 = random_range(min, max);
        let y2: i64 = random_range(min, max);
        let x3: i64 = random_range(min, max);
        let y3: i64 = random_range(min, max);
        let weight: i64 = random_range(WEIGHT_MIN, WEIGHT_MAX);
        let samples: [i64; 8] = [x0, y0, x1, y1, x2, y2, x3, y3];
        let s = Square::from_samples(samples, weight);
        assert(forall|j: int|
            0 <= j < 8 ==> jitter_low(randomness as int, i as int) <= #[trigger] samples@[j]
                < jitter_high(randomness as int, i as int));
        s
    }

    /// The points of the path, in drawing order.
    pub fn points(&self) -> (p: &Vec<Point>)
        ensures
            p@ == self@.points,
            self@.wf(),
    {
        proof {
            use_type_invariant(self);
        }
        &self.points
    }

    /// The weight of the stroke, in units.
    pub fn weight(&self) -> (w: i64)
        ensures
            w == self@.weight,
    {
        self.weight
    }
}

/// Every corner of a jittered outline lies on each axis between `low` and
/// `high` millionths of the half extent from the centre, on the side that its
/// place in the path gives it: `low` may be reached, `high` is not.
pub proof fn lemma_jittered_corners_in_bounds(sq: SquareView, low: int, high: int)
    requires
        sq.jittered(low, high),
    ensures
        sq.wf(),
        HALF_W * low <= -sq.points[0].x * JITTER_ONE < HALF_W * high,
        HALF_H * low <= -sq.points[0].y * JITTER_ONE < HALF_H * high,
        HALF_W * low <= sq.points[1].x * JITTER_ONE < HALF_W * high,
        HALF_H * low <= -sq.points[1].y * JITTER_ONE < HALF_H * high,
        HALF_W * low <= sq.points[2].x * JITTER_ONE < HALF_W * high,
        HALF_H * low <= sq.points[2].y * JITTER_ONE < HALF_H * high,
        HALF_W * low <= -sq.points[3].x * JITTER_ONE < HALF_W * high,
        HALF_H * low <= sq.points[3].y * JITTER_ONE < HALF_H * high,
{
    let samples = choose|samples: Seq<i64>|
        {
            &&& #[trigger] sq.drawn_from(samples)
            &&& forall|j: int| 0 <= j < 8 ==> low <= #[trigger] samples[j] < high
        };
    assert(low <= samples[0] < high);
    assert(low <= samples[1] < high);
    assert(low <= samples[2] < high);
    assert(low <= samples[3] < high);
    assert(low <= samples[4] < high);
    assert(low <= samples[5] < high);
    assert(low <= samples[6] < high);
    assert(low <= samples[7] < high);
}

} // verus!
