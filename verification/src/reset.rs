//! Reset policies. A raw pool is created either so that each of its buffers may be reset
//! alone, or so that they are reset only together, with the pool. The policy is fixed with
//! the raw pool and never changes.

use vstd::prelude::*;

verus! {

/// A reset policy, as a marker type.
pub trait Reset: Copy {
    /// A buffer may be reset alone.
    spec fn individual(&self) -> bool;

    /// Whether a buffer may be reset alone.
    fn allows_individual_reset(&self) -> (allowed: bool)
        ensures
            allowed == self.individual(),
    ;
}

/// Marker: each buffer may be reset alone.
#[derive(Clone, Copy, Debug, PartialEq, Eq, Hash, Structural)]
pub struct IndividualReset;

/// Marker: buffers are reset only together, with their pool.
#[derive(Clone, Copy, Debug, PartialEq, Eq, Hash, Structural)]
pub struct NoIndividualReset;

impl Reset for IndividualReset {
    open spec fn individual(&self) -> bool {
        true
    }

    fn allows_individual_reset(&self) -> (allowed: bool) {
        true
    }
}

impl Reset for NoIndividualReset {
    open spec fn individual(&self) -> bool {
        false
    }

    fn allows_individual_reset(&self) -> (allowed: bool) {
        false
    }
}

} // verus!
