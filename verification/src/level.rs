//! Buffer levels: a primary buffer is submitted to a queue, a secondary one is executed
//! from a primary buffer. The level is fixed when a buffer is allocated.

use vstd::prelude::*;

verus! {

/// The level of a buffer as a value.
#[derive(Clone, Copy, Debug, PartialEq, Eq, Hash, Structural)]
pub enum RawLevel {
    /// Submitted to a queue.
    Primary,
    /// Executed from a primary buffer.
    Secondary,
}

/// A level, as a value or as a marker type.
pub trait Level: Copy {
    /// The level as a value.
    spec fn raw_level(&self) -> RawLevel;

    /// The level as a value.
    fn level(&self) -> (raw: RawLevel)
        ensures
            raw == self.raw_level(),
    ;
}

/// Marker: primary level.
#[derive(Clone, Copy, Debug, PartialEq, Eq, Hash, Structural)]
pub struct PrimaryLevel;

/// Marker: secondary level.
#[derive(Clone, Copy, Debug, PartialEq, Eq, Hash, Structural)]
pub struct SecondaryLevel;

impl Level for RawLevel {
    open spec fn raw_level(&self) -> RawLevel {
        *self
    }

    fn level(&self) -> (raw: RawLevel) {
        *self
    }
}

impl Level for PrimaryLevel {
    open spec fn raw_level(&self) -> RawLevel {
        RawLevel::Primary
    }

    fn level(&self) -> (raw: RawLevel) {
        RawLevel::Primary
    }
}

impl Level for SecondaryLevel {
    open spec fn raw_level(&self) -> RawLevel {
        RawLevel::Secondary
    }

    fn level(&self) -> (raw: RawLevel) {
        RawLevel::Secondary
    }
}

} // verus!
