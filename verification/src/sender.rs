//! The Sender actor: owner of the Sender-side pool, sole authority on how
//! the pool is partitioned.
//!
//! The actor is written as a state machine whose step functions are called
//! from the single serialized request loop of the embedding application:
//! every mutation of the pool and of the committed records happens inside
//! one of these functions, so reservation is atomic per request.  Each
//! accepted `send` returns the [`SplitMessage`] that the embedding must
//! forward to the paired Receiver actor, and the range's message pairs are
//! handed to the OT engine by the embedding as well.

use vstd::prelude::*;

use crate::block::copy_vec;
use crate::block::BlockPair;
use crate::config::OTActorSenderConfig;
use crate::error::OTActorError;
use crate::msg::RevealMessage;
use crate::msg::RevealRecord;
use crate::msg::SplitMessage;
use crate::pool::OTPool;
use crate::pool::SlotRange;
use crate::state::ActorState;

verus! {

/// Sender-side actor state: configuration, lifecycle, pool bookkeeping,
/// and (in committed mode) the inputs retained for a later reveal.
pub struct KOSSenderActor {
    /// The validated settings this actor was built with.
    pub config: OTActorSenderConfig,
    /// Where in its lifecycle the actor stands.
    pub state: ActorState,
    /// Bookkeeping of the provisioned pool.
    pub pool: OTPool,
    /// Retained inputs of committed sessions, in acceptance order.  Empty
    /// unless committed mode is enabled.
    pub records: Vec<RevealRecord>,
}

impl KOSSenderActor {
    /// Well-formedness: the pool is well formed, nothing is provisioned or
    /// retained before `setup`, and once ready the pool holds exactly the
    /// configured count.
    pub open spec fn wf(self) -> bool {
        &&& self.pool.wf()
        &&& self.state is Initialized ==> self.pool.total_setup == 0 && self.records@.len() == 0
        &&& self.state is Ready ==> self.pool.total_setup == self.config.initial_count
        &&& !self.config.committed ==> self.records@.len() == 0
    }

    /// A freshly constructed actor: not yet set up, empty pool, no
    /// retained records.
    pub fn new(config: OTActorSenderConfig) -> (a: KOSSenderActor)
        ensures
            a.wf(),
            a.config == config,
            a.state is Initialized,
            a.pool.consumed == 0,
            a.records@.len() == 0,
    {
        KOSSenderActor {
            config,
            state: ActorState::Initialized,
            pool: OTPool::new(0),
            records: Vec::new(),
        }
    }

    /// Provisions the pool with the configured initial count.
    ///
    /// Returns the number of OT instances the embedding must drive the
    /// engine to produce.  Guarded against repetition: a second call fails
    /// with `AlreadySetup` and changes nothing.
    pub fn setup(&mut self) -> (r: Result<usize, OTActorError>)
        requires
            old(self).wf(),
        ensures
            final(self).wf(),
            final(self).config == old(self).config,
            old(self).state is Ready ==> r == Err::<usize, OTActorError>(
                OTActorError::AlreadySetup,
            ) && *final(self) == *old(self),
            old(self).state is Initialized ==> {
                &&& r == Ok::<usize, OTActorError>(old(self).config.initial_count)
                &&& final(self).state is Ready
                &&& final(self).pool.total_setup == old(self).config.initial_count
                &&& final(self).pool.consumed == 0
                &&& final(self).pool.allocations@.len() == 0
                &&& final(self).records@ == old(self).records@
            },
    {
        match self.state {
            ActorState::Ready => Err(OTActorError::AlreadySetup),
            ActorState::Initialized => {
                self.pool = OTPool::new(self.config.initial_count);
                self.state = ActorState::Ready;
                Ok(self.config.initial_count)
            },
        }
    }

    /// Accepts a `send(id, data)` request: reserves `data.len()` slots,
    /// retains `data` when committed mode is on, and returns the
    /// assignment the embedding must forward to the Receiver actor before
    /// driving the engine's send for the reserved range.
    ///
    /// Fails with `WrongState` before `setup`, and with
    /// `InsufficientPool` — leaving everything untouched — exactly when
    /// `data.len()` exceeds the unreserved remainder of the pool.
    pub fn send(&mut self, id: &str, data: &Vec<BlockPair>) -> (r: Result<
        SplitMessage,
        OTActorError,
    >)
        requires
            old(self).wf(),
        ensures
            final(self).wf(),
            final(self).config == old(self).config,
            old(self).state is Initialized ==> r == Err::<SplitMessage, OTActorError>(
                OTActorError::WrongState,
            ) && *final(self) == *old(self),
            old(self).state is Ready && data@.len() > old(self).pool.available() ==> {
                &&& r == Err::<SplitMessage, OTActorError>(
                    OTActorError::InsufficientPool {
                        requested: data@.len() as usize,
                        available: (old(self).pool.total_setup - old(self).pool.consumed) as usize,
                    },
                )
                &&& *final(self) == *old(self)
            },
            old(self).state is Ready && data@.len() <= old(self).pool.available() ==> {
                &&& r matches Ok(msg) && msg.id@ == id@ && msg.start == old(self).pool.consumed
                    && msg.len == data@.len()
                &&& final(self).state is Ready
                &&& final(self).pool.total_setup == old(self).pool.total_setup
                &&& final(self).pool.consumed == old(self).pool.consumed + data@.len()
                &&& final(self).pool.allocations@.len() == old(self).pool.allocations@.len() + 1
                &&& forall|i: int|
                    0 <= i < old(self).pool.allocations@.len() ==> final(self).pool.allocations@[i]
                        == old(self).pool.allocations@[i]
                &&& final(self).pool.allocations@.last().id@ == id@
                &&& final(self).pool.allocations@.last().range == (SlotRange {
                    start: old(self).pool.consumed,
                    len: data@.len() as usize,
                })
                &&& old(self).config.committed ==> {
                    &&& final(self).records@.len() == old(self).records@.len() + 1
                    &&& forall|i: int|
                        0 <= i < old(self).records@.len() ==> final(self).records@[i] == old(
                            self,
                        ).records@[i]
                    &&& final(self).records@.last().id@ == id@
                    &&& final(self).records@.last().data@ == data@
                }
                &&& !old(self).config.committed ==> final(self).records@ == old(self).records@
            },
    {
        match self.state {
            ActorState::Initialized => Err(OTActorError::WrongState),
            ActorState::Ready => {
                let range = match self.pool.reserve(id, data.len()) {
                    Ok(range) => range,
                    Err(e) => {
                        return Err(e);
                    },
                };
                if self.config.committed {
                    let retained = copy_vec(data);
                    self.records.push(RevealRecord { id: id.to_owned(), data: retained });
                }
                Ok(SplitMessage { id: id.to_owned(), start: range.start, len: range.len })
            },
        }
    }

    /// Hands out the retained inputs of every committed session and clears
    /// the retention, producing the message the embedding must forward to
    /// the Receiver actor.
    ///
    /// Fails with `NotCommitted` when committed mode is disabled and with
    /// `WrongState` before `setup`; in both cases nothing changes.
    pub fn reveal_all(&mut self) -> (r: Result<RevealMessage, OTActorError>)
        requires
            old(self).wf(),
        ensures
            final(self).wf(),
            final(self).config == old(self).config,
            !old(self).config.committed ==> r == Err::<RevealMessage, OTActorError>(
                OTActorError::NotCommitted,
            ) && *final(self) == *old(self),
            old(self).config.committed && old(self).state is Initialized ==> r == Err::<
                RevealMessage,
                OTActorError,
            >(OTActorError::WrongState) && *final(self) == *old(self),
            old(self).config.committed && old(self).state is Ready ==> {
                &&& r matches Ok(m) && m.records@ == old(self).records@
                &&& final(self).records@.len() == 0
                &&& final(self).state == old(self).state
                &&& final(self).pool == old(self).pool
            },
    {
        if !self.config.committed {
            return Err(OTActorError::NotCommitted);
        }
        match self.state {
            ActorState::Initialized => Err(OTActorError::WrongState),
            ActorState::Ready => {
                let mut records: Vec<RevealRecord> = Vec::new();
                core::mem::swap(&mut records, &mut self.records);
                Ok(RevealMessage { records })
            },
        }
    }
}

} // verus!
