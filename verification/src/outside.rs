//! Items of other crates that pools carry, with what is assumed of them.

use vstd::prelude::*;

verus! {

/// `gfx_hal::queue::QueueFamilyId`: the number by which a backend knows a queue family.
/// Its contents are never read here. A family id is carried from a pool to the buffers
/// allocated from it, and compared only in contracts.
#[verifier::external_type_specification]
#[verifier::external_body]
pub struct ExQueueFamilyId(gfx_hal::queue::QueueFamilyId);

/// `relevant::Relevant`: a marker that reports when it is dropped instead of being disposed.
/// It has no contents.
#[verifier::external_type_specification]
#[verifier::external_body]
pub struct ExRelevant(relevant::Relevant);

/// `relevant::Relevant::dispose` takes the marker and forgets it, so that its drop report
/// never runs. It returns nothing, and nothing is assumed of it.
pub assume_specification[ relevant::Relevant::dispose ](marker: relevant::Relevant);

/// Makes a `relevant::Relevant`, which is a unit value. Nothing is assumed of it.
#[verifier::external_body]
pub(crate) fn relevant_marker() -> (marker: relevant::Relevant) {
    relevant::Relevant
}

} // verus!
