//! The error controllers that the options of a propagator can name.  How
//! each of them measures an error estimate is arithmetic, and is with
//! whoever evaluates the steps.
use vstd::prelude::*;

verus! {

/// Root-sum-square of the step error over all components.
#[derive(Clone, Copy, Debug, PartialEq, Eq, Structural)]
pub struct RSSStep {}

/// Root-sum-square of the step error over the position and over the
/// velocity, each on its own; the larger of the two counts.
#[derive(Clone, Copy, Debug, PartialEq, Eq, Structural)]
pub struct RSSStepPV {}

} // verus!
