//! A pull-based bridge for exchanging batches of columnar, tabular data
//! between two independently compiled libraries through a small, fixed
//! callback ABI.
//!
//! One side (the producer) populates a shared stream handle with function
//! pointers and an opaque context; the other side (the consumer) drives those
//! callbacks to pull record batches lazily, validates their shape, and
//! guarantees that the handle's release callback fires exactly once however
//! iteration ends: natural end-of-stream, a producer error, or early
//! abandonment.
//!
//! The raw-pointer plumbing of the ABI itself lives outside this crate; here
//! every protocol decision is made over plain values and verified:
//!
//! - [`layout`]: the single static check justifying the cast between two
//!   independent declarations of the handle type.
//! - [`handle`]: the consumer's view of a populated handle and the release
//!   guard's state machine.
//! - [`schema`], [`array`]: the data model — fields, type tags, and column
//!   arrays with their buffers.
//! - [`batch`]: the batch validator, turning a struct-typed array node into a
//!   record batch of named columns.
//! - [`consumer`]: the pull-protocol state machine and the verified drivers
//!   that establish the iteration and release guarantees.

pub mod array;
pub mod batch;
pub mod consumer;
pub mod error;
pub mod handle;
pub mod layout;
pub mod schema;
