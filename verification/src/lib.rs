//! Monte Carlo estimates of π, computed in exact integer arithmetic.
//!
//! Three experiments are provided: the share of random lattice points that fall inside a
//! circle inscribed in a square, Buffon's needle, and the mean displacement of a
//! one-dimensional random walk. Each experiment counts in integers and reports its
//! estimate as an exact fraction, so that everything up to the final division is proved.

pub mod circle;
pub mod estimate;
pub mod needle;
pub mod source;
pub mod tally;
pub mod walk;
