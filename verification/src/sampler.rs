//! Sampling a function at evenly spaced lattice positions.
//!
//! The positions are `range_start`, `range_start + step`, and so on, as long
//! as they do not pass `range_end`. They are found by multiplying, not by
//! adding up, so nothing drifts: where the width of the range is a whole
//! number of steps, the last position is `range_end` itself.

use crate::error::PlotError;
use crate::geometry::Sample;
use vstd::arithmetic::div_mod::lemma_fundamental_div_mod_converse;
use vstd::prelude::*;

verus! {

/// How many positions are sampled between `range_start` and `range_end`,
/// both included, for a `step` above zero.
pub open spec fn sample_count(range_start: int, range_end: int, step: int) -> nat {
    if range_start > range_end {
        0
    } else {
        ((range_end - range_start) / step + 1) as nat
    }
}

/// The position of sample `k`.
pub open spec fn sample_position(range_start: int, step: int, k: int) -> int {
    range_start + k * step
}

/// With `k` steps taken and the next one past the end, `k + 1` positions lie
/// in the range.
proof fn lemma_count_reached(range_start: int, range_end: int, step: int, k: int)
    requires
        step > 0,
        k >= 0,
        range_start + k * step <= range_end,
        range_start + (k + 1) * step > range_end,
    ensures
        sample_count(range_start, range_end, step) == k + 1,
{
    let width = range_end - range_start;
    assert((k + 1) * step == k * step + step) by (nonlinear_arith);
    assert(k * step >= 0) by (nonlinear_arith)
        requires
            k >= 0,
            step > 0,
    ;
    lemma_fundamental_div_mod_converse(width, step, k, width - k * step);
}

/// Samples `function` from `range_start` to `range_end`, both included, every
/// `step` lattice units. A range that ends before it starts has no samples.
/// A step that is zero or negative is refused.
pub fn generate_points<F: Fn(i32) -> i32>(
    range_start: i32,
    range_end: i32,
    step: i32,
    function: F,
) -> (result: Result<Vec<Sample>, PlotError>)
    requires
        step > 0 ==> forall|x: i32|
            range_start <= x <= range_end && (x - range_start) % (step as int) == 0
                ==> call_requires(function, (x,)),
    ensures
        step <= 0 <==> result is Err,
        result is Err ==> result->Err_0 == PlotError::InvalidArgument,
        result is Ok ==> ({
            let points = result->Ok_0@;
            &&& points.len() == sample_count(range_start as int, range_end as int, step as int)
            &&& forall|k: int|
                0 <= k < points.len() ==> {
                    &&& (#[trigger] points[k]).x == sample_position(
                        range_start as int,
                        step as int,
                        k,
                    )
                    &&& call_ensures(function, (points[k].x,), points[k].y)
                }
        }),
        result is Ok && range_start > range_end ==> result->Ok_0@.len() == 0,
        result is Ok && range_start <= range_end ==> ({
            let points = result->Ok_0@;
            &&& points.len() > 0
            &&& points[0].x == range_start
            &&& points.last().x <= range_end < points.last().x + step
            &&& (range_end - range_start) % (step as int) == 0 ==> points.last().x == range_end
        }),
{
    if step <= 0 {
        return Err(PlotError::InvalidArgument);
    }
    let mut points: Vec<Sample> = Vec::new();
    let mut value: i64 = range_start as i64;
    while value <= range_end as i64
        invariant
            step > 0,
            value == sample_position(range_start as int, step as int, points@.len() as int),
            range_start <= value,
            points@.len() == 0 ==> value == range_start,
            points@.len() > 0 ==> range_start <= value - step <= range_end,
            forall|x: i32|
                range_start <= x <= range_end && (x - range_start) % (step as int) == 0
                    ==> call_requires(function, (x,)),
            forall|k: int|
                0 <= k < points@.len() ==> {
                    &&& (#[trigger] points@[k]).x == sample_position(
                        range_start as int,
                        step as int,
                        k,
                    )
                    &&& call_ensures(function, (points@[k].x,), points@[k].y)
                },
        decreases range_end - value + step,
    {
        let ghost k = points@.len() as int;
        proof {
            assert((k + 1) * step == k * step + step) by (nonlinear_arith);
            assert(k * step >= 0) by (nonlinear_arith)
                requires
                    k >= 0,
                    step > 0,
            ;
            vstd::arithmetic::div_mod::lemma_mod_multiples_basic(k, step as int);
        }
        let x: i32 = value as i32;
        let y: i32 = function(x);
        points.push(Sample { x, y });
        value = value + step as i64;
    }
    proof {
        let n = points@.len() as int;
        if range_start <= range_end {
            assert(n > 0);
            assert(n * step == (n - 1) * step + step) by (nonlinear_arith);
            lemma_count_reached(range_start as int, range_end as int, step as int, n - 1);
            let last = points@.last();
            assert(last == points@[n - 1]);
            if (range_end - range_start) % (step as int) == 0 {
                let width = range_end - range_start;
                vstd::arithmetic::div_mod::lemma_fundamental_div_mod(width, step as int);
                assert(step * (width / (step as int)) == (width / (step as int)) * step)
                    by (nonlinear_arith);
            }
        } else {
            assert(n == 0);
        }
    }
    Ok(points)
}

} // verus!
