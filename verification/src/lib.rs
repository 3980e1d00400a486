//! Actor-style provisioning of bulk oblivious transfers (OT).
//!
//! A Sender and a Receiver each own a pool of pre-provisioned OT
//! correlations.  Client sessions request named slices ("splits") of the
//! pool; the Sender dictates slice boundaries and the Receiver applies them
//! in the exact order they were issued.  An optional "committed" mode lets
//! the Sender later reveal its inputs so the Receiver can verify that the
//! values transferred earlier were authentic.
//!
//! The modules below hold the verified core: configuration, the control
//! messages exchanged between the two sides, the pool allocator, and the
//! two actor state machines.  Asynchronous plumbing (mailboxes, task
//! spawning, transport) is left to the embedding application; the actors
//! are written as step functions from state and event to new state and
//! action, so every allocation and ordering decision is verified.

pub mod block;
pub mod config;
pub mod error;
pub mod msg;
pub mod pairing;
pub mod pool;
pub mod receiver;
pub mod sender;
pub mod state;

