//! The physicists' Hermite polynomials up to degree ten, as a table of
//! whole-number coefficients.
//!
//! The polynomials are fixed by `H_0 = 1`, `H_1 = 2y` and
//! `H_n = 2y * H_(n-1) - 2(n-1) * H_(n-2)`. The table is written out by
//! hand and proved, row by row, to hold exactly the coefficients that this
//! recurrence gives.

use crate::error::PlotError;
use crate::level::EnergyLevel;
use vstd::prelude::*;

verus! {

/// The highest degree that the table holds.
pub const MAX_DEGREE: u32 = 10;

/// The coefficient of `y^k` in `H_n`.
pub open spec fn hermite_coefficient(n: nat, k: int) -> int
    decreases n,
{
    if n == 0 {
        if k == 0 {
            1
        } else {
            0
        }
    } else if n == 1 {
        if k == 1 {
            2
        } else {
            0
        }
    } else {
        2 * hermite_coefficient((n - 1) as nat, k - 1) - 2 * (n - 1) * hermite_coefficient(
            (n - 2) as nat,
            k,
        )
    }
}

/// `H_n` has no term below the constant one and none above `y^n`.
pub proof fn lemma_no_coefficient_outside(n: nat, k: int)
    requires
        k < 0 || k > n,
    ensures
        hermite_coefficient(n, k) == 0,
    decreases n,
{
    if n >= 2 {
        lemma_no_coefficient_outside((n - 1) as nat, k - 1);
        lemma_no_coefficient_outside((n - 2) as nat, k);
    }
}

/// What the recurrence needs of the rows `n - 1` and `n - 2` beyond their
/// own terms, to give the row `n`.
proof fn lemma_margins(n: nat)
    requires
        n >= 2,
    ensures
        hermite_coefficient((n - 1) as nat, -1) == 0,
        hermite_coefficient((n - 2) as nat, n - 1) == 0,
        hermite_coefficient((n - 2) as nat, n as int) == 0,
{
    lemma_no_coefficient_outside((n - 1) as nat, -1);
    lemma_no_coefficient_outside((n - 2) as nat, n - 1);
    lemma_no_coefficient_outside((n - 2) as nat, n as int);
}

/// Row 0 of the table is `H_0`.
proof fn lemma_row_0()
    ensures
        hermite_coefficient(0, 0) == 1,
{
}

/// Row 1 of the table is `H_1`.
proof fn lemma_row_1()
    ensures
        hermite_coefficient(1, 0) == 0,
        hermite_coefficient(1, 1) == 2,
{
}

/// Row 2 of the table is `H_2`.
proof fn lemma_row_2()
    ensures
        hermite_coefficient(2, 0) == -2,
        hermite_coefficient(2, 1) == 0,
        hermite_coefficient(2, 2) == 4,
{
    lemma_row_1();
    lemma_row_0();
    lemma_margins(2);
}

/// Row 3 of the table is `H_3`.
proof fn lemma_row_3()
    ensures
        hermite_coefficient(3, 0) == 0,
        hermite_coefficient(3, 1) == -12,
        hermite_coefficient(3, 2) == 0,
        hermite_coefficient(3, 3) == 8,
{
    lemma_row_2();
    lemma_row_1();
    lemma_margins(3);
}

/// Row 4 of the table is `H_4`.
proof fn lemma_row_4()
    ensures
        hermite_coefficient(4, 0) == 12,
        hermite_coefficient(4, 1) == 0,
        hermite_coefficient(4, 2) == -48,
        hermite_coefficient(4, 3) == 0,
        hermite_coefficient(4, 4) == 16,
{
    lemma_row_3();
    lemma_row_2();
    lemma_margins(4);
}

/// Row 5 of the table is `H_5`.
proof fn lemma_row_5()
    ensures
        hermite_coefficient(5, 0) == 0,
        hermite_coefficient(5, 1) == 120,
        hermite_coefficient(5, 2) == 0,
        hermite_coefficient(5, 3) == -160,
        hermite_coefficient(5, 4) == 0,
        hermite_coefficient(5, 5) == 32,
{
    lemma_row_4();
    lemma_row_3();
    lemma_margins(5);
}

/// Row 6 of the table is `H_6`.
proof fn lemma_row_6()
    ensures
        hermite_coefficient(6, 0) == -120,
        hermite_coefficient(6, 1) == 0,
        hermite_coefficient(6, 2) == 720,
        hermite_coefficient(6, 3) == 0,
        hermite_coefficient(6, 4) == -480,
        hermite_coefficient(6, 5) == 0,
        hermite_coefficient(6, 6) == 64,
{
    lemma_row_5();
    lemma_row_4();
    lemma_margins(6);
}

/// Row 7 of the table is `H_7`.
proof fn lemma_row_7()
    ensures
        hermite_coefficient(7, 0) == 0,
        hermite_coefficient(7, 1) == -1680,
        hermite_coefficient(7, 2) == 0,
        hermite_coefficient(7, 3) == 3360,
        hermite_coefficient(7, 4) == 0,
        hermite_coefficient(7, 5) == -1344,
        hermite_coefficient(7, 6) == 0,
        hermite_coefficient(7, 7) == 128,
{
    lemma_row_6();
    lemma_row_5();
    lemma_margins(7);
}

/// Row 8 of the table is `H_8`.
proof fn lemma_row_8()
    ensures
        hermite_coefficient(8, 0) == 1680,
        hermite_coefficient(8, 1) == 0,
        hermite_coefficient(8, 2) == -13440,
        hermite_coefficient(8, 3) == 0,
        hermite_coefficient(8, 4) == 13440,
        hermite_coefficient(8, 5) == 0,
        hermite_coefficient(8, 6) == -3584,
        hermite_coefficient(8, 7) == 0,
        hermite_coefficient(8, 8) == 256,
{
    lemma_row_7();
    lemma_row_6();
    lemma_margins(8);
}

/// Row 9 of the table is `H_9`.
proof fn lemma_row_9()
    ensures
        hermite_coefficient(9, 0) == 0,
        hermite_coefficient(9, 1) == 30240,
        hermite_coefficient(9, 2) == 0,
        hermite_coefficient(9, 3) == -80640,
        hermite_coefficient(9, 4) == 0,
        hermite_coefficient(9, 5) == 48384,
        hermite_coefficient(9, 6) == 0,
        hermite_coefficient(9, 7) == -9216,
        hermite_coefficient(9, 8) == 0,
        hermite_coefficient(9, 9) == 512,
{
    lemma_row_8();
    lemma_row_7();
    lemma_margins(9);
}

/// Row 10 of the table is `H_10`.
proof fn lemma_row_10()
    ensures
        hermite_coefficient(10, 0) == -30240,
        hermite_coefficient(10, 1) == 0,
        hermite_coefficient(10, 2) == 302400,
        hermite_coefficient(10, 3) == 0,
        hermite_coefficient(10, 4) == -403200,
        hermite_coefficient(10, 5) == 0,
        hermite_coefficient(10, 6) == 161280,
        hermite_coefficient(10, 7) == 0,
        hermite_coefficient(10, 8) == -23040,
        hermite_coefficient(10, 9) == 0,
        hermite_coefficient(10, 10) == 1024,
{
    lemma_row_9();
    lemma_row_8();
    lemma_margins(10);
}

/// The coefficients of the Hermite polynomial of the given level, from the
/// constant term up to the leading one. A level beyond [`MAX_DEGREE`] has no
/// row in the table and is refused.
pub fn hermite_polynomial(level: &EnergyLevel) -> (result: Result<Vec<i32>, PlotError>)
    ensures
        match result {
            Ok(coefficients) => {
                &&& level.0 <= MAX_DEGREE
                &&& coefficients@.len() == level.0 + 1
                &&& forall|k: int|
                    0 <= k <= level.0 ==> #[trigger] coefficients@[k] == hermite_coefficient(
                        level.0 as nat,
                        k,
                    )
            },
            Err(error) => level.0 > MAX_DEGREE && error == PlotError::UnsupportedDegree,
        },
{
    let coefficients: Vec<i32> = match level.0 {
        0 => {
            proof {
                lemma_row_0();
            }
            vec![1]
        },
        1 => {
            proof {
                lemma_row_1();
            }
            vec![0, 2]
        },
        2 => {
            proof {
                lemma_row_2();
            }
            vec![-2, 0, 4]
        },
        3 => {
            proof {
                lemma_row_3();
            }
            vec![0, -12, 0, 8]
        },
        4 => {
            proof {
                lemma_row_4();
            }
            vec![12, 0, -48, 0, 16]
        },
        5 => {
            proof {
                lemma_row_5();
            }
            vec![0, 120, 0, -160, 0, 32]
        },
        6 => {
            proof {
                lemma_row_6();
            }
            vec![-120, 0, 720, 0, -480, 0, 64]
        },
        7 => {
            proof {
                lemma_row_7();
            }
            vec![0, -1680, 0, 3360, 0, -1344, 0, 128]
        },
        8 => {
            proof {
                lemma_row_8();
            }
            vec![1680, 0, -13440, 0, 13440, 0, -3584, 0, 256]
        },
        9 => {
            proof {
                lemma_row_9();
            }
            vec![0, 30240, 0, -80640, 0, 48384, 0, -9216, 0, 512]
        },
        10 => {
            proof {
                lemma_row_10();
            }
            vec![-30240, 0, 302400, 0, -403200, 0, 161280, 0, -23040, 0, 1024]
        },
        _ => {
            return Err(PlotError::UnsupportedDegree);
        },
    };
    Ok(coefficients)
}

} // verus!
