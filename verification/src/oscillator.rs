//! The whole-number part of the harmonic oscillator's normalisation.
//!
//! The constant that normalises the state of level `n` is the fourth root of
//! a physical scale, divided by the square root of `2^n * n!`. That product
//! is a whole number, and is computed here without rounding.

use crate::error::PlotError;
use crate::hermite::MAX_DEGREE;
use crate::level::EnergyLevel;
use vstd::arithmetic::power2::{lemma_pow2_unfold, pow2};
use vstd::prelude::*;

verus! {

/// The product of the whole numbers from 1 to `n`.
pub open spec fn factorial(n: nat) -> nat
    decreases n,
{
    if n == 0 {
        1
    } else {
        n * factorial((n - 1) as nat)
    }
}

/// The number under the square root of the normalisation: `2^n * n!`.
pub open spec fn normalization_divisor_at(n: nat) -> nat {
    pow2(n) * factorial(n)
}

/// Each level's divisor is `2n` times that of the level below.
proof fn lemma_divisor_step(n: nat)
    requires
        n > 0,
    ensures
        normalization_divisor_at(n) == 2 * n * normalization_divisor_at((n - 1) as nat),
{
    lemma_pow2_unfold(n);
    let p = pow2((n - 1) as nat);
    let f = factorial((n - 1) as nat);
    assert((2 * p) * (n * f) == 2 * n * (p * f)) by (nonlinear_arith);
}

/// The divisors of the levels that can be plotted, the last of which still
/// fits in 32 bits.
proof fn lemma_divisor_values()
    ensures
        normalization_divisor_at(0) == 1,
        normalization_divisor_at(1) == 2,
        normalization_divisor_at(2) == 8,
        normalization_divisor_at(3) == 48,
        normalization_divisor_at(4) == 384,
        normalization_divisor_at(5) == 3840,
        normalization_divisor_at(6) == 46080,
        normalization_divisor_at(7) == 645120,
        normalization_divisor_at(8) == 10321920,
        normalization_divisor_at(9) == 185794560,
        normalization_divisor_at(10) == 3715891200,
{
    vstd::arithmetic::power2::lemma2_to64();
    lemma_divisor_step(1);
    lemma_divisor_step(2);
    lemma_divisor_step(3);
    lemma_divisor_step(4);
    lemma_divisor_step(5);
    lemma_divisor_step(6);
    lemma_divisor_step(7);
    lemma_divisor_step(8);
    lemma_divisor_step(9);
    lemma_divisor_step(10);
}

/// No level that can be plotted has a divisor beyond 32 bits.
proof fn lemma_divisor_fits(n: nat)
    requires
        n <= MAX_DEGREE,
    ensures
        normalization_divisor_at(n) <= 3715891200,
{
    lemma_divisor_values();
    if n == 0 {
    } else if n == 1 {
    } else if n == 2 {
    } else if n == 3 {
    } else if n == 4 {
    } else if n == 5 {
    } else if n == 6 {
    } else if n == 7 {
    } else if n == 8 {
    } else if n == 9 {
    } else {
        assert(n == 10);
    }
}

/// The number `2^n * n!` that the normalisation of the given level divides
/// by, under a square root. A level beyond [`MAX_DEGREE`] has no polynomial
/// and is refused.
pub fn normalization_divisor(level: &EnergyLevel) -> (result: Result<u32, PlotError>)
    ensures
        match result {
            Ok(divisor) => level.0 <= MAX_DEGREE && divisor == normalization_divisor_at(
                level.0 as nat,
            ),
            Err(error) => level.0 > MAX_DEGREE && error == PlotError::UnsupportedDegree,
        },
{
    if level.0 > MAX_DEGREE {
        return Err(PlotError::UnsupportedDegree);
    }
    let mut divisor: u32 = 1;
    let mut n: u32 = 0;
    proof {
        lemma_divisor_values();
    }
    while n < level.0
        invariant
            n <= level.0 <= MAX_DEGREE,
            divisor == normalization_divisor_at(n as nat),
        decreases level.0 - n,
    {
        n = n + 1;
        proof {
            lemma_divisor_step(n as nat);
            lemma_divisor_fits(n as nat);
            assert(divisor * (2 * n) == 2 * n * divisor) by (nonlinear_arith);
        }
        divisor = divisor * (2 * n);
    }
    Ok(divisor)
}

} // verus!
