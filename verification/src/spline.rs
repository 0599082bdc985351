//! Fitting a chain of cubic Bezier segments through a run of samples.
//!
//! Each pair of neighbouring samples gives one segment. Its two handles are
//! placed a third and two thirds of the way along, and are pulled by the
//! sample before the pair and the sample after it, as in a Catmull-Rom
//! spline. How hard they pull is the tension, given in thousandths
//! ([`TENSION_SCALE`]). Every quotient is rounded towards negative infinity,
//! so a handle is at most one lattice unit per quotient away from its
//! place in the reals.

use crate::geometry::{Coordinates, Point, Sample};
use vstd::arithmetic::div_mod::{lemma_fundamental_div_mod, lemma_fundamental_div_mod_converse};
use vstd::prelude::*;

verus! {

/// The number that a tension of one whole is written as.
pub const TENSION_SCALE: i64 = 1000;

/// The tension that plots use on both sides: three tenths.
pub const DEFAULT_TENSION: i32 = 300;

/// One cubic Bezier piece: the point its incoming tangent is taken from,
/// two handles, and the sample it ends in.
#[derive(Clone, Copy, Debug, PartialEq, Eq, Structural)]
pub struct BezierSegment {
    pub p0: Point,
    pub c1: Point,
    pub c2: Point,
    pub p1: Point,
}

impl View for BezierSegment {
    type V = (Coordinates, Coordinates, Coordinates, Coordinates);

    open spec fn view(&self) -> (Coordinates, Coordinates, Coordinates, Coordinates) {
        (self.p0@, self.c1@, self.c2@, self.p1@)
    }
}

/// The sample that segment `i` takes its incoming tangent from: the one
/// before the pair, or the pair's first sample where nothing comes before.
pub open spec fn tangent_source(points: Seq<Sample>, i: int) -> Sample {
    if i == 0 {
        points[i]
    } else {
        points[i - 1]
    }
}

/// The sample that segment `i` takes its outgoing tangent from: the one
/// after the pair, or the pair's second sample where nothing comes after.
pub open spec fn tangent_target(points: Seq<Sample>, i: int) -> Sample {
    if i + 2 < points.len() {
        points[i + 2]
    } else {
        points[i + 1]
    }
}

/// The tension that acts on the first handle of segment `i`: none on the
/// first segment, none where the rise from the tangent source to the end of
/// the pair equals the rise over the pair, and `tension1` otherwise.
pub open spec fn incoming_tension(points: Seq<Sample>, i: int, tension1: int) -> int {
    let p0 = tangent_source(points, i)@;
    let p1 = points[i]@;
    let p2 = points[i + 1]@;
    if i == 0 || (p2.y - p1.y) == (p2.y - p0.y) {
        0
    } else {
        tension1
    }
}

/// The tension that acts on the second handle of segment `i`: none on the
/// last segment, none where the rise after the pair equals the rise over
/// the pair, and `tension2` otherwise.
pub open spec fn outgoing_tension(points: Seq<Sample>, i: int, tension2: int) -> int {
    let p1 = points[i]@;
    let p2 = points[i + 1]@;
    let p3 = tangent_target(points, i)@;
    if i + 2 >= points.len() || (p3.y - p2.y) == (p2.y - p1.y) {
        0
    } else {
        tension2
    }
}

/// The first handle of the segment from `p1` to `p2`, pulled by `p0`.
pub open spec fn first_handle(
    p0: Coordinates,
    p1: Coordinates,
    p2: Coordinates,
    tension: int,
) -> Coordinates {
    Coordinates {
        x: p1.x + (p2.x - p1.x) / 3,
        y: p1.y - (p1.y - p2.y) / 3 - (p0.y - p1.y) * tension / (TENSION_SCALE as int),
    }
}

/// The second handle of the segment from `p1` to `p2`, pulled by `p3`.
pub open spec fn second_handle(
    p1: Coordinates,
    p2: Coordinates,
    p3: Coordinates,
    tension: int,
) -> Coordinates {
    Coordinates {
        x: p1.x + 2 * (p2.x - p1.x) / 3,
        y: p1.y - 2 * (p1.y - p2.y) / 3 + (p2.y - p3.y) * tension / (TENSION_SCALE as int),
    }
}

/// Segment `i` of the curve through `points`, for `0 <= i < points.len() - 1`.
pub open spec fn segment_at(points: Seq<Sample>, i: int, tension1: int, tension2: int) -> (
    Coordinates,
    Coordinates,
    Coordinates,
    Coordinates,
) {
    let p0 = tangent_source(points, i)@;
    let p1 = points[i]@;
    let p2 = points[i + 1]@;
    let p3 = tangent_target(points, i)@;
    (
        p0,
        first_handle(p0, p1, p2, incoming_tension(points, i, tension1)),
        second_handle(p1, p2, p3, outgoing_tension(points, i, tension2)),
        p2,
    )
}

/// A fitted path as plain coordinates, segment by segment.
pub open spec fn path_view(path: Seq<BezierSegment>) -> Seq<
    (Coordinates, Coordinates, Coordinates, Coordinates),
> {
    Seq::new(path.len(), |i: int| path[i]@)
}

/// The whole curve through `points`: its segments in order.
pub open spec fn fitted_path(points: Seq<Sample>, tension1: int, tension2: int) -> Seq<
    (Coordinates, Coordinates, Coordinates, Coordinates),
> {
    Seq::new(segment_count(points.len()), |i: int| segment_at(points, i, tension1, tension2))
}

/// How many segments the curve through `len` samples has.
pub open spec fn segment_count(len: nat) -> nat {
    if len < 2 {
        0
    } else {
        (len - 1) as nat
    }
}

/// Where a segment's pair and both of its neighbours lie at one height, so do
/// its handles, whatever the tensions: a level run is drawn level.
pub proof fn lemma_level_run_has_level_handles(
    points: Seq<Sample>,
    i: int,
    tension1: int,
    tension2: int,
)
    requires
        0 <= i < points.len() - 1,
        tangent_source(points, i).y == points[i].y,
        points[i + 1].y == points[i].y,
        tangent_target(points, i).y == points[i].y,
    ensures
        segment_at(points, i, tension1, tension2).1.y == points[i].y,
        segment_at(points, i, tension1, tension2).2.y == points[i].y,
{
}

/// The first handle lies a third of the way along its pair and the second
/// two thirds, each rounded down to the lattice.
pub proof fn lemma_handles_lie_between(points: Seq<Sample>, i: int, tension1: int, tension2: int)
    requires
        0 <= i < points.len() - 1,
        points[i].x <= points[i + 1].x,
    ensures
        points[i].x <= segment_at(points, i, tension1, tension2).1.x <= segment_at(
            points,
            i,
            tension1,
            tension2,
        ).2.x <= points[i + 1].x,
{
}

/// Each handle lies where the fit in the reals puts it, but for the rounding
/// to the lattice. With everything multiplied out, so that thirds and
/// thousandths are whole: a handle is less than one unit to the left of its
/// real place, the first less than two units above it, and the second less
/// than one unit above or below it.
pub proof fn lemma_handles_are_near_the_real_fit(
    p0: Coordinates,
    p1: Coordinates,
    p2: Coordinates,
    p3: Coordinates,
    tension1: int,
    tension2: int,
)
    ensures
        ({
            let c1 = first_handle(p0, p1, p2, tension1);
            let pull = (p0.y - p1.y) * tension1;
            &&& 0 <= (3 * p1.x + (p2.x - p1.x)) - 3 * c1.x < 3
            &&& 0 <= 3000 * c1.y - (3000 * p1.y - 1000 * (p1.y - p2.y) - 3 * pull) < 6000
        }),
        ({
            let c2 = second_handle(p1, p2, p3, tension2);
            let pull = (p2.y - p3.y) * tension2;
            &&& 0 <= (3 * p1.x + 2 * (p2.x - p1.x)) - 3 * c2.x < 3
            &&& -3000 < 3000 * c2.y - (3000 * p1.y - 2000 * (p1.y - p2.y) + 3 * pull) < 3000
        }),
{
}

/// The quotient of `a` by `d`, rounded towards negative infinity.
fn floor_div(a: i64, d: i64) -> (q: i64)
    requires
        d > 0,
        a > i64::MIN,
    ensures
        q == a / d,
{
    if a >= 0 {
        a / d
    } else {
        let m: i64 = -a - 1;
        let below: i64 = m / d;
        proof {
            lemma_fundamental_div_mod(m as int, d as int);
            assert((-(below as int) - 1) * d == -((below as int) * d) - d) by (nonlinear_arith);
            assert((d as int) * (m as int / d as int) == (m as int / d as int) * d)
                by (nonlinear_arith);
            lemma_fundamental_div_mod_converse(
                a as int,
                d as int,
                -(below as int) - 1,
                d - 1 - (m as int % d as int),
            );
        }
        -below - 1
    }
}

/// The product of a difference of two sample values and a tension.
fn pull(from: i32, to: i32, tension: i32) -> (product: i64)
    ensures
        product == (from - to) * tension,
        -0x7fff_ffff_8000_0000 <= product <= 0x7fff_ffff_8000_0000,
{
    let difference: i64 = from as i64 - to as i64;
    assert(-0x7fff_ffff_8000_0000 <= difference * tension <= 0x7fff_ffff_8000_0000)
        by (nonlinear_arith)
        requires
            -0xffff_ffff <= difference <= 0xffff_ffff,
            -0x8000_0000 <= tension <= 0x7fff_ffff,
    ;
    difference * (tension as i64)
}

/// Computes [`first_handle`].
fn compute_first_handle(p0: Sample, p1: Sample, p2: Sample, tension: i32) -> (handle: Point)
    ensures
        handle@ == first_handle(p0@, p1@, p2@, tension as int),
{
    let x: i64 = p1.x as i64 + floor_div(p2.x as i64 - p1.x as i64, 3);
    let y: i64 = p1.y as i64 - floor_div(p1.y as i64 - p2.y as i64, 3) - floor_div(
        pull(p0.y, p1.y, tension),
        TENSION_SCALE,
    );
    Point { x, y }
}

/// Computes [`second_handle`].
fn compute_second_handle(p1: Sample, p2: Sample, p3: Sample, tension: i32) -> (handle: Point)
    ensures
        handle@ == second_handle(p1@, p2@, p3@, tension as int),
{
    let x: i64 = p1.x as i64 + floor_div(2 * (p2.x as i64 - p1.x as i64), 3);
    let y: i64 = p1.y as i64 - floor_div(2 * (p1.y as i64 - p2.y as i64), 3) + floor_div(
        pull(p2.y, p3.y, tension),
        TENSION_SCALE,
    );
    Point { x, y }
}

/// Fits the curve through `points`: one segment for each pair of
/// neighbouring samples, in order, and none where there are fewer than two
/// samples. `tension1` pulls the first handle of a segment and `tension2`
/// the second, both in thousandths.
///
/// Every segment ends in the second sample of its pair, and the first
/// segment takes its tangent from the first sample itself.
pub fn generate_path(points: &[Sample], tension1: i32, tension2: i32) -> (path: Vec<BezierSegment>)
    ensures
        path_view(path@) == fitted_path(points@, tension1 as int, tension2 as int),
        path@.len() == segment_count(points@.len()),
        forall|i: int|
            0 <= i < path@.len() ==> (#[trigger] path@[i])@ == segment_at(
                points@,
                i,
                tension1 as int,
                tension2 as int,
            ),
        points@.len() >= 2 ==> path@.len() == points@.len() - 1,
        forall|i: int| 0 <= i < path@.len() ==> (#[trigger] path@[i]).p1@ == points@[i + 1]@,
        path@.len() > 0 ==> path@[0].p0@ == points@[0]@,
{
    let mut path: Vec<BezierSegment> = Vec::new();
    if points.len() < 2 {
        assert(path_view(path@) =~= fitted_path(points@, tension1 as int, tension2 as int));
        return path;
    }
    let last: usize = points.len() - 1;
    let mut i: usize = 0;
    while i < last
        invariant
            last == points@.len() - 1,
            i <= last,
            path@.len() == i,
            forall|j: int|
                0 <= j < i ==> (#[trigger] path@[j])@ == segment_at(
                    points@,
                    j,
                    tension1 as int,
                    tension2 as int,
                ),
        decreases last - i,
    {
        let p1: Sample = points[i];
        let p2: Sample = points[i + 1];
        let p0: Sample = if i > 0 {
            points[i - 1]
        } else {
            p1
        };
        let p3: Sample = if i + 1 < last {
            points[i + 2]
        } else {
            p2
        };
        let rise: i64 = p2.y as i64 - p1.y as i64;
        let pull_in: i32 = if i == 0 || rise == p2.y as i64 - p0.y as i64 {
            0
        } else {
            tension1
        };
        let pull_out: i32 = if i + 1 >= last || p3.y as i64 - p2.y as i64 == rise {
            0
        } else {
            tension2
        };
        let segment = BezierSegment {
            p0: p0.to_point(),
            c1: compute_first_handle(p0, p1, p2, pull_in),
            c2: compute_second_handle(p1, p2, p3, pull_out),
            p1: p2.to_point(),
        };
        assert(segment@ == segment_at(points@, i as int, tension1 as int, tension2 as int));
        path.push(segment);
        i += 1;
    }
    assert(path_view(path@) =~= fitted_path(points@, tension1 as int, tension2 as int));
    path
}

} // verus!
