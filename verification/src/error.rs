//! Faults that the plotting core reports.

use vstd::prelude::*;

verus! {

/// Why a request to the plotting core was turned down.
#[derive(Clone, Copy, Debug, PartialEq, Eq, Structural)]
pub enum PlotError {
    /// A sampling step that is zero or negative.
    InvalidArgument,
    /// An energy level beyond the Hermite table.
    UnsupportedDegree,
}

} // verus!
