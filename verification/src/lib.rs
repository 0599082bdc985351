//! Exact, integer-lattice core of a plotter for quantum wavefunctions.

pub mod curve;
pub mod error;
pub mod geometry;
pub mod hermite;
pub mod level;
pub mod oscillator;
pub mod parse;
pub mod sampler;
pub mod session;
pub mod spline;
