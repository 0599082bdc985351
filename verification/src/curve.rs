//! The record of one fitted curve, as it is handed to whoever draws it.

use crate::geometry::Coordinates;
use crate::spline::{path_view, BezierSegment};
use vstd::prelude::*;

verus! {

/// Which of the two curves of a state a record holds: the wavefunction or
/// its probability density.
#[derive(Clone, Copy, Debug, PartialEq, Eq, Structural)]
pub enum CurveKind {
    Wave,
    PDF,
}

/// The colour a curve is drawn in.
#[derive(Clone, Copy, Debug, PartialEq, Eq, Structural)]
pub enum CurveColor {
    White,
    Gray,
}

/// One fitted curve: the energy level it was made for, what it shows, its
/// colour, and its Bezier segments in order.
#[derive(Debug)]
pub struct Curve {
    pub id: u32,
    pub kind: CurveKind,
    pub color: CurveColor,
    pub points: Vec<BezierSegment>,
}

/// The mathematical value of a [`Curve`].
pub struct CurveView {
    pub id: u32,
    pub kind: CurveKind,
    pub color: CurveColor,
    pub segments: Seq<(Coordinates, Coordinates, Coordinates, Coordinates)>,
}

impl View for Curve {
    type V = CurveView;

    open spec fn view(&self) -> CurveView {
        CurveView {
            id: self.id,
            kind: self.kind,
            color: self.color,
            segments: path_view(self.points@),
        }
    }
}

} // verus!
