//! The lifecycle of an actor, as seen through its control interface.

use vstd::prelude::*;

verus! {

/// Lifecycle of a Sender or Receiver actor.
///
/// An actor starts `Initialized`; a successful `setup` provisions its pool
/// and moves it to `Ready`.  Every other operation is valid only from
/// `Ready`: invoked earlier it fails with `WrongState`, and a second
/// `setup` fails with `AlreadySetup`, since the pool model assumes exactly
/// one initial provisioning.
#[derive(Clone, Copy, Debug, PartialEq, Eq, Structural)]
pub enum ActorState {
    /// Constructed, pool not yet provisioned.
    Initialized,
    /// Pool provisioned; splits may be requested.
    Ready,
}

} // verus!
