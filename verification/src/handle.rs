//! The consumer's view of a stream handle and the release guard that makes
//! its release callback fire exactly once.

use vstd::prelude::*;

use crate::error::BridgeError;

verus! {

/// What the consumer can observe of a populated stream handle without
/// dereferencing anything: which of the four callback slots the producer
/// actually filled in. The opaque context pointer is producer-owned and never
/// interpreted, so it does not appear here.
#[derive(Debug, Clone, Copy, PartialEq, Eq, Structural)]
pub struct HandleView {
    /// The schema-getter slot is populated.
    pub has_get_schema: bool,
    /// The next-batch-getter slot is populated.
    pub has_get_next: bool,
    /// The last-error-getter slot is populated.
    pub has_get_last_error: bool,
    /// The release slot is populated.
    pub has_release: bool,
}

impl HandleView {
    /// Every callback slot the consumer will drive is populated.
    pub open spec fn complete(self) -> bool {
        self.has_get_schema && self.has_get_next && self.has_get_last_error
            && self.has_release
    }

    /// Checks that the producer filled in every callback slot; a handle with
    /// an empty slot must not be driven.
    pub fn check_populated(&self) -> (r: Result<(), BridgeError>)
        ensures
            r is Ok <==> self.complete(),
            r is Err ==> r == Result::<(), BridgeError>::Err(
                BridgeError::UnexpectedNullPointer,
            ),
    {
        if self.has_get_schema && self.has_get_next && self.has_get_last_error
            && self.has_release {
            Ok(())
        } else {
            Err(BridgeError::UnexpectedNullPointer)
        }
    }
}

/// The lifecycle of a stream handle, from its allocation in a zeroed state to
/// the one and only invocation of its release callback.
#[derive(Debug, Clone, Copy, PartialEq, Eq, Structural)]
pub enum GuardPhase {
    /// Allocated, not yet handed to the producer.
    Empty,
    /// The producer has written its callbacks and context.
    Populated,
    /// The consumer is pulling batches.
    Iterating,
    /// The release callback has been invoked; the handle is dead.
    Released,
}

/// A scoped-resource wrapper around the stream handle. It tracks the handle's
/// lifecycle and decides when the handle-level release callback is to be
/// invoked, so that it fires exactly once on every exit path — natural
/// exhaustion, a producer error, or early abandonment — and can never fire
/// twice.
#[derive(Debug)]
pub struct ReleaseGuard {
    phase: GuardPhase,
}

impl ReleaseGuard {
    /// The guard's current position in the handle lifecycle.
    pub closed spec fn phase(self) -> GuardPhase {
        self.phase
    }

    /// A fresh guard for a newly allocated, still-empty handle.
    pub fn new() -> (g: ReleaseGuard)
        ensures
            g.phase() == GuardPhase::Empty,
    {
        ReleaseGuard { phase: GuardPhase::Empty }
    }

    /// The current phase, observable at run time.
    pub fn current_phase(&self) -> (p: GuardPhase)
        ensures
            p == self.phase(),
    {
        self.phase
    }

    /// Records that the producer populated the handle.
    pub fn mark_populated(&mut self)
        requires
            old(self).phase() == GuardPhase::Empty,
        ensures
            final(self).phase() == GuardPhase::Populated,
    {
        self.phase = GuardPhase::Populated;
    }

    /// Records that the consumer started pulling batches.
    pub fn mark_iterating(&mut self)
        requires
            old(self).phase() == GuardPhase::Populated,
        ensures
            final(self).phase() == GuardPhase::Iterating,
    {
        self.phase = GuardPhase::Iterating;
    }

    /// Moves the handle to `Released`. Releasing twice is a programming
    /// error, not a recoverable condition, so a guard already in `Released`
    /// may not be released again; the caller invokes the handle's release
    /// callback exactly when this returns.
    pub fn release(&mut self) -> (invoke: bool)
        requires
            old(self).phase() != GuardPhase::Released,
        ensures
            final(self).phase() == GuardPhase::Released,
            invoke,
    {
        self.phase = GuardPhase::Released;
        true
    }

    /// The idempotent teardown path: moves the handle to `Released` from any
    /// phase and says whether the release callback is still owed. From every
    /// run of calls on one guard, exactly the first `finish` answers `true`,
    /// which is how the release callback comes to fire exactly once per
    /// handle lifetime.
    pub fn finish(&mut self) -> (invoke: bool)
        ensures
            final(self).phase() == GuardPhase::Released,
            invoke == (old(self).phase() != GuardPhase::Released),
    {
        let owed = match self.phase {
            GuardPhase::Released => false,
            _ => true,
        };
        self.phase = GuardPhase::Released;
        owed
    }

    /// Whether the release callback has already fired; a guard dropped while
    /// this is still `false` would leak the handle.
    pub fn is_released(&self) -> (r: bool)
        ensures
            r == (self.phase() == GuardPhase::Released),
    {
        match self.phase {
            GuardPhase::Released => true,
            _ => false,
        }
    }
}

} // verus!
