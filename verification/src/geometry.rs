//! Points of the integer lattice on which functions are sampled and curves
//! are drawn.
//!
//! Every coordinate is a whole number of lattice units. What one unit stands
//! for (a picometre, a thousandth of a screen unit) is the caller's choice;
//! the arithmetic of this crate is exact in those units.

use vstd::prelude::*;

verus! {

/// A point of the plane with whole-number coordinates of any size: the
/// mathematical value of a [`Sample`] or a [`Point`].
pub struct Coordinates {
    pub x: int,
    pub y: int,
}

/// One sample of a function: the lattice position `x` and the value `y`
/// found there.
#[derive(Clone, Copy, Debug, PartialEq, Eq, Structural)]
pub struct Sample {
    pub x: i32,
    pub y: i32,
}

impl View for Sample {
    type V = Coordinates;

    open spec fn view(&self) -> Coordinates {
        Coordinates { x: self.x as int, y: self.y as int }
    }
}

/// A point of a fitted curve. Its range is wider than that of a [`Sample`],
/// because a control point may lie well outside the samples it was made from.
#[derive(Clone, Copy, Debug, PartialEq, Eq, Structural)]
pub struct Point {
    pub x: i64,
    pub y: i64,
}

impl View for Point {
    type V = Coordinates;

    open spec fn view(&self) -> Coordinates {
        Coordinates { x: self.x as int, y: self.y as int }
    }
}

impl Sample {
    /// The same place as a [`Point`].
    pub fn to_point(self) -> (point: Point)
        ensures
            point@ == self@,
    {
        Point { x: self.x as i64, y: self.y as i64 }
    }
}

} // verus!
