//! Error taxonomy of the OT actors.
//!
//! Configuration failures are reported separately (and synchronously) by
//! the config builders; everything that can go wrong while operating an
//! actor is an `OTActorError`.

use vstd::prelude::*;

verus! {

/// A failure while building a configuration value.
#[derive(Clone, Copy, Debug, PartialEq, Eq, Structural)]
pub enum ConfigError {
    /// The identity string was never supplied.
    MissingId,
    /// The initial pool size was never supplied.
    MissingInitialCount,
    /// The initial pool size was supplied but is zero.
    InvalidInitialCount,
}

/// A failure while operating a Sender or Receiver actor.
#[derive(Clone, Copy, Debug, PartialEq, Eq, Structural)]
pub enum OTActorError {
    /// A background task could not be started.
    Spawn,
    /// The operation is not valid in the actor's current lifecycle state.
    WrongState,
    /// `setup` was called on an actor that is already set up.
    AlreadySetup,
    /// A commit/reveal/verify operation was invoked but committed mode is
    /// disabled for this actor.
    NotCommitted,
    /// A slice request asked for more OT instances than the pool still
    /// holds.
    InsufficientPool {
        /// How many instances the request asked for.
        requested: usize,
        /// How many instances were still unreserved.
        available: usize,
    },
    /// The session id of a receive call does not match the next
    /// Sender-issued assignment: the two sides have desynchronized.
    OrderMismatch,
    /// The number of choice bits (or of delivered blocks) differs from the
    /// length of the reserved range.
    LengthMismatch {
        /// The length the reserved range dictates.
        expected: usize,
        /// The length that was actually supplied.
        actual: usize,
    },
    /// A committed-mode check failed: the revealed Sender inputs do not
    /// match what was transferred.  This is an integrity failure, never
    /// retried.
    VerificationFailed,
}

} // verus!
