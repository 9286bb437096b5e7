//! The failures the bridge can surface to its caller.

use vstd::prelude::*;

verus! {

/// Everything that can go wrong while pulling batches through the bridge.
///
/// Producer-reported failures carry the producer's status code and the
/// message retrieved from its last-error callback; they are never silently
/// swallowed. Shape failures come from the batch validator. A missing
/// callback slot is detected before the handle is ever driven.
#[derive(Debug, PartialEq, Eq, Clone)]
pub enum BridgeError {
    /// The schema getter returned a non-zero status.
    SchemaRetrieval { status: i32, message: String },
    /// The next-batch getter returned a non-zero status.
    NextBatch { status: i32, message: String },
    /// A required callback slot of the handle was never populated.
    UnexpectedNullPointer,
    /// The root node of a pulled batch does not carry the struct type tag.
    StructTypeMismatch,
    /// The root node's child count differs from the schema's field count.
    SchemaColumnCountMismatch,
}

} // verus!
