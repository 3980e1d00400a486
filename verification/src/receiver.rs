//! The Receiver actor: follower of the Sender-dictated partition order.
//!
//! The Receiver never decides slice boundaries.  Each client
//! `receive(id, choices)` call is matched against the next Sender-issued
//! assignment from the coordination channel; if the assignment names a
//! different session id, the two sides have desynchronized and the call
//! fails with `OrderMismatch` instead of silently consuming the wrong
//! range.  A receive is a two-step exchange with the embedding: first the
//! assignment is validated and the mirrored pool advanced
//! ([`KOSReceiverActor::begin_receive`]), then the blocks the engine
//! delivered are recorded and handed back
//! ([`KOSReceiverActor::complete_receive`]).

use vstd::prelude::*;

use crate::block::copy_vec;
use crate::block::spec_select;
use crate::block::Block;
use crate::block::BlockPair;
use crate::config::OTActorReceiverConfig;
use crate::error::OTActorError;
use crate::msg::first_reveal_index;
use crate::msg::RevealMessage;
use crate::msg::RevealRecord;
use crate::msg::SplitMessage;
use crate::pool::OTPool;
use crate::pool::SlotRange;
use crate::state::ActorState;

verus! {

/// What the Receiver keeps of one completed session in committed mode:
/// its own choice bits and the blocks the engine delivered, for the later
/// check against the Sender's revealed inputs.
pub struct ReceivedRecord {
    /// The session id.
    pub id: String,
    /// The choice bits the client supplied.
    pub choices: Vec<bool>,
    /// The blocks the engine delivered, in input order.
    pub blocks: Vec<Block>,
}

/// A receive whose assignment has been validated and whose range is
/// reserved, waiting for the engine's blocks.
pub struct PendingReceive {
    /// The session id.
    pub id: String,
    /// The choice bits the client supplied.
    pub choices: Vec<bool>,
    /// First slot of the assigned range.
    pub start: usize,
    /// Length of the assigned range.
    pub len: usize,
}

/// Index of the first received record carrying `id`, or `-1` if none
/// does.
pub open spec fn first_received_index(records: Seq<ReceivedRecord>, id: Seq<char>) -> int
    decreases records.len(),
{
    if records.len() == 0 {
        -1
    } else if records[0].id@ == id {
        0
    } else {
        let rest = first_received_index(records.drop_first(), id);
        if rest < 0 {
            -1
        } else {
            rest + 1
        }
    }
}

/// The first received index is a genuine first match: it lies in bounds
/// and carries `id` whenever some record does, and nothing before it does.
pub proof fn lemma_first_received_index(records: Seq<ReceivedRecord>, id: Seq<char>)
    ensures
        first_received_index(records, id) >= 0 ==> {
            &&& first_received_index(records, id) < records.len()
            &&& records[first_received_index(records, id)].id@ == id
        },
        forall|j: int|
            0 <= j < records.len() && j < first_received_index(records, id)
                || (first_received_index(records, id) < 0 && 0 <= j < records.len()) ==> (
            #[trigger] records[j]).id@ != id,
    decreases records.len(),
{
    if records.len() > 0 && records[0].id@ != id {
        lemma_first_received_index(records.drop_first(), id);
        assert forall|j: int|
            0 <= j < records.len() && j < first_received_index(records, id)
                || (first_received_index(records, id) < 0 && 0 <= j < records.len()) implies (
        #[trigger] records[j]).id@ != id by {
            if j > 0 {
                assert(records[j] == records.drop_first()[j - 1]);
            }
        }
    }
}

/// If position `i` carries `id` and no earlier position does, then `i` is
/// the first received index.
proof fn lemma_received_index_from_witness(records: Seq<ReceivedRecord>, id: Seq<char>, i: int)
    requires
        0 <= i < records.len(),
        records[i].id@ == id,
        forall|j: int| 0 <= j < i ==> (#[trigger] records[j]).id@ != id,
    ensures
        first_received_index(records, id) == i,
    decreases i,
{
    if i > 0 {
        assert(records[0].id@ != id);
        assert(records.drop_first()[i - 1].id@ == id);
        assert forall|j: int| 0 <= j < i - 1 implies (#[trigger] records.drop_first()[j]).id@
            != id by {
            assert(records.drop_first()[j] == records[j + 1]);
        }
        lemma_received_index_from_witness(records.drop_first(), id, i - 1);
    }
}

/// Looks up the first record carrying `id`, by index.
fn find_received(records: &Vec<ReceivedRecord>, id_owned: &String) -> (r: Option<usize>)
    ensures
        (r is Some) == (first_received_index(records@, id_owned@) >= 0),
        r matches Some(i) ==> i as int == first_received_index(records@, id_owned@),
{
    let n = records.len();
    let mut i: usize = 0;
    while i < n
        invariant
            0 <= i <= n,
            n == records@.len(),
            forall|j: int| 0 <= j < i ==> (#[trigger] records@[j]).id@ != id_owned@,
        decreases n - i,
    {
        if records[i].id == *id_owned {
            proof {
                lemma_received_index_from_witness(records@, id_owned@, i as int);
            }
            return Some(i);
        }
        i = i + 1;
    }
    proof {
        lemma_first_received_index(records@, id_owned@);
    }
    None
}

/// The committed-mode check for one session: the revealed Sender inputs
/// equal the inputs the caller expected, and every block delivered earlier
/// is the one those inputs select under the recorded choice bits.
pub open spec fn reveal_matches(rec: ReceivedRecord, rev: RevealRecord, data: Seq<BlockPair>) -> bool {
    &&& rev.data@.len() == data.len()
    &&& rec.choices@.len() == data.len()
    &&& rec.blocks@.len() == data.len()
    &&& forall|k: int| 0 <= k < data.len() ==> #[trigger] rev.data@[k] == data[k]
    &&& forall|k: int|
        0 <= k < data.len() ==> #[trigger] rec.blocks@[k] == spec_select(data[k], rec.choices@[k])
}

/// Receiver-side actor state: configuration, lifecycle, the mirrored pool
/// bookkeeping, the receive in flight (if any), and the records retained
/// for committed-mode verification.
pub struct KOSReceiverActor {
    /// The validated settings this actor was built with.
    pub config: OTActorReceiverConfig,
    /// Where in its lifecycle the actor stands.
    pub state: ActorState,
    /// Mirrored bookkeeping of the Sender-dictated partition.
    pub pool: OTPool,
    /// The receive whose engine exchange is still in flight.
    pub pending: Option<PendingReceive>,
    /// Completed sessions retained for verification.  Empty unless
    /// committed mode is enabled.
    pub records: Vec<ReceivedRecord>,
}

impl KOSReceiverActor {
    /// Well-formedness: the mirrored pool is well formed, nothing is
    /// provisioned, pending or retained before `setup`, a pending receive
    /// carries as many choice bits as its range has slots, and every
    /// retained record pairs each choice bit with one delivered block.
    pub open spec fn wf(self) -> bool {
        &&& self.pool.wf()
        &&& self.state is Initialized ==> self.pool.total_setup == 0 && self.pending is None
            && self.records@.len() == 0
        &&& self.state is Ready ==> self.pool.total_setup == self.config.initial_count
        &&& !self.config.committed ==> self.records@.len() == 0
        &&& self.pending matches Some(p) ==> p.choices@.len() == p.len
        &&& forall|i: int|
            0 <= i < self.records@.len() ==> (#[trigger] self.records@[i]).choices@.len() == self.records@[i].blocks@.len()
    }

    /// A freshly constructed actor: not yet set up, empty mirrored pool,
    /// nothing pending or retained.
    pub fn new(config: OTActorReceiverConfig) -> (a: KOSReceiverActor)
        ensures
            a.wf(),
            a.config == config,
            a.state is Initialized,
            a.pool.consumed == 0,
            a.records@.len() == 0,
            a.pending is None,
    {
        KOSReceiverActor {
            config,
            state: ActorState::Initialized,
            pool: OTPool::new(0),
            pending: None,
            records: Vec::new(),
        }
    }

    /// Provisions the mirrored pool with the configured initial count.
    ///
    /// Returns the number of OT instances the embedding must drive the
    /// engine to produce; it must match the Sender's count or later
    /// requests fail once the smaller pool is exhausted.  A second call
    /// fails with `AlreadySetup` and changes nothing.
    pub fn setup(&mut self) -> (r: Result<usize, OTActorError>)
        requires
            old(self).wf(),
        ensures
            final(self).wf(),
            final(self).config == old(self).config,
            old(self).state is Ready ==> r == Err::<usize, OTActorError>(
                OTActorError::AlreadySetup,
            ) && *final(self) == *old(self),
            old(self).state is Initialized ==> {
                &&& r == Ok::<usize, OTActorError>(old(self).config.initial_count)
                &&& final(self).state is Ready
                &&& final(self).pool.total_setup == old(self).config.initial_count
                &&& final(self).pool.consumed == 0
                &&& final(self).pool.allocations@.len() == 0
                &&& final(self).pending is None
                &&& final(self).records@ == old(self).records@
            },
    {
        match self.state {
            ActorState::Ready => Err(OTActorError::AlreadySetup),
            ActorState::Initialized => {
                self.pool = OTPool::new(self.config.initial_count);
                self.state = ActorState::Ready;
                Ok(self.config.initial_count)
            },
        }
    }

    /// Matches a client `receive(id, choices)` call against the next
    /// Sender-issued assignment and reserves the assigned range in the
    /// mirrored pool.
    ///
    /// Fails, changing nothing, with `WrongState` before `setup` or while
    /// another receive is in flight; with `OrderMismatch` if the
    /// assignment names a different session id than the client, or if its
    /// range does not continue the dictated sequence; with
    /// `LengthMismatch` if the client supplied a different number of
    /// choice bits than the assigned range has slots; and with
    /// `InsufficientPool` if the assigned range overruns the provisioned
    /// pool.  On success the returned range is exactly the assigned one,
    /// and the engine's receive for it must be driven next.
    pub fn begin_receive(&mut self, id: &str, choices: &Vec<bool>, assignment: &SplitMessage) -> (r:
        Result<SlotRange, OTActorError>)
        requires
            old(self).wf(),
        ensures
            final(self).wf(),
            final(self).config == old(self).config,
            old(self).state is Initialized ==> r == Err::<SlotRange, OTActorError>(
                OTActorError::WrongState,
            ) && *final(self) == *old(self),
            old(self).state is Ready && old(self).pending is Some ==> r == Err::<
                SlotRange,
                OTActorError,
            >(OTActorError::WrongState) && *final(self) == *old(self),
            old(self).state is Ready && old(self).pending is None && assignment.id@ != id@ ==> r
                == Err::<SlotRange, OTActorError>(OTActorError::OrderMismatch) && *final(self)
                == *old(self),
            old(self).state is Ready && old(self).pending is None && assignment.id@ == id@
                && choices@.len() != assignment.len ==> r == Err::<SlotRange, OTActorError>(
                OTActorError::LengthMismatch {
                    expected: assignment.len,
                    actual: choices@.len() as usize,
                },
            ) && *final(self) == *old(self),
            old(self).state is Ready && old(self).pending is None && assignment.id@ == id@
                && choices@.len() == assignment.len && assignment.start != old(self).pool.consumed
                ==> r == Err::<SlotRange, OTActorError>(OTActorError::OrderMismatch) && *final(self)
                == *old(self),
            old(self).state is Ready && old(self).pending is None && assignment.id@ == id@
                && choices@.len() == assignment.len && assignment.start == old(self).pool.consumed
                && assignment.len > old(self).pool.available() ==> r == Err::<
                SlotRange,
                OTActorError,
            >(
                OTActorError::InsufficientPool {
                    requested: assignment.len,
                    available: (old(self).pool.total_setup - old(self).pool.consumed) as usize,
                },
            ) && *final(self) == *old(self),
            old(self).state is Ready && old(self).pending is None && assignment.id@ == id@
                && choices@.len() == assignment.len && assignment.start == old(self).pool.consumed
                && assignment.len <= old(self).pool.available() ==> {
                &&& r == Ok::<SlotRange, OTActorError>(
                    SlotRange { start: assignment.start, len: assignment.len },
                )
                &&& final(self).state is Ready
                &&& final(self).pool.total_setup == old(self).pool.total_setup
                &&& final(self).pool.consumed == old(self).pool.consumed + assignment.len
                &&& final(self).pool.allocations@.len() == old(self).pool.allocations@.len() + 1
                &&& forall|i: int|
                    0 <= i < old(self).pool.allocations@.len() ==> final(self).pool.allocations@[i]
                        == old(self).pool.allocations@[i]
                &&& final(self).pool.allocations@.last().id@ == id@
                &&& final(self).pool.allocations@.last().range == (SlotRange {
                    start: assignment.start,
                    len: assignment.len,
                })
                &&& final(self).pending matches Some(p) && p.id@ == id@ && p.choices@ == choices@
                    && p.start == assignment.start && p.len == assignment.len
                &&& final(self).records@ == old(self).records@
            },
    {
        match self.state {
            ActorState::Initialized => Err(OTActorError::WrongState),
            ActorState::Ready => {
                if self.pending.is_some() {
                    return Err(OTActorError::WrongState);
                }
                let id_owned: String = id.to_owned();
                if !(assignment.id == id_owned) {
                    return Err(OTActorError::OrderMismatch);
                }
                if choices.len() != assignment.len {
                    return Err(
                        OTActorError::LengthMismatch {
                            expected: assignment.len,
                            actual: choices.len(),
                        },
                    );
                }
                if assignment.start != self.pool.consumed {
                    return Err(OTActorError::OrderMismatch);
                }
                let range = match self.pool.reserve(id, assignment.len) {
                    Ok(range) => range,
                    Err(e) => {
                        return Err(e);
                    },
                };
                self.pending = Some(
                    PendingReceive {
                        id: id_owned,
                        choices: copy_vec(choices),
                        start: range.start,
                        len: range.len,
                    },
                );
                Ok(range)
            },
        }
    }

    /// Records the blocks the engine delivered for the receive in flight
    /// and hands them back to the client, in input order.
    ///
    /// Fails with `WrongState`, changing nothing, if no receive is in
    /// flight, and with `LengthMismatch` if the engine delivered a
    /// different number of blocks than the assigned range has slots.  On
    /// success the pending receive is cleared and, in committed mode, the
    /// session's choices and blocks are retained for verification.
    pub fn complete_receive(&mut self, blocks: Vec<Block>) -> (r: Result<Vec<Block>, OTActorError>)
        requires
            old(self).wf(),
        ensures
            final(self).wf(),
            final(self).config == old(self).config,
            old(self).pending is None ==> r == Err::<Vec<Block>, OTActorError>(
                OTActorError::WrongState,
            ) && *final(self) == *old(self),
            old(self).pending is Some && blocks@.len() != old(self).pending.unwrap().len ==> r
                == Err::<Vec<Block>, OTActorError>(
                OTActorError::LengthMismatch {
                    expected: old(self).pending.unwrap().len,
                    actual: blocks@.len() as usize,
                },
            ) && *final(self) == *old(self),
            old(self).pending is Some && blocks@.len() == old(self).pending.unwrap().len ==> {
                &&& r matches Ok(b) && b@ == blocks@
                &&& final(self).pending is None
                &&& final(self).state == old(self).state
                &&& final(self).pool == old(self).pool
                &&& old(self).config.committed ==> {
                    &&& final(self).records@.len() == old(self).records@.len() + 1
                    &&& forall|i: int|
                        0 <= i < old(self).records@.len() ==> final(self).records@[i] == old(
                            self,
                        ).records@[i]
                    &&& final(self).records@.last().id@ == old(self).pending.unwrap().id@
                    &&& final(self).records@.last().choices@ == old(self).pending.unwrap().choices@
                    &&& final(self).records@.last().blocks@ == blocks@
                }
                &&& !old(self).config.committed ==> final(self).records@ == old(self).records@
            },
    {
        match &self.pending {
            None => {
                return Err(OTActorError::WrongState);
            },
            Some(p) => {
                if blocks.len() != p.len {
                    return Err(
                        OTActorError::LengthMismatch { expected: p.len, actual: blocks.len() },
                    );
                }
            },
        }
        let taken = self.pending.take();
        match taken {
            Some(p) => {
                if self.config.committed {
                    let retained = copy_vec(&blocks);
                    self.records.push(
                        ReceivedRecord { id: p.id, choices: p.choices, blocks: retained },
                    );
                }
                Ok(blocks)
            },
            None => Err(OTActorError::WrongState),
        }
    }

    /// Whether a committed-mode `verify(id, data)` call accepts, given the
    /// Sender's reveal: the first retained session for `id` and the first
    /// revealed record for `id` both exist and pass [`reveal_matches`].
    pub open spec fn verify_accepts(
        self,
        id: Seq<char>,
        data: Seq<BlockPair>,
        revealed: RevealMessage,
    ) -> bool {
        let ri = first_received_index(self.records@, id);
        let vi = first_reveal_index(revealed.records@, id);
        &&& ri >= 0
        &&& vi >= 0
        &&& reveal_matches(self.records@[ri], revealed.records@[vi], data)
    }

    /// Checks session `id` against the Sender's revealed inputs: the
    /// revealed message pairs must equal `data`, and every block delivered
    /// earlier must be the one `data` selects under the recorded choice
    /// bits.
    ///
    /// Fails with `NotCommitted` when committed mode is disabled, with
    /// `WrongState` before `setup`, and otherwise with
    /// `VerificationFailed` — an integrity failure, never retried — exactly
    /// when the check does not accept.
    pub fn verify(&self, id: &str, data: &Vec<BlockPair>, revealed: &RevealMessage) -> (r: Result<
        (),
        OTActorError,
    >)
        requires
            self.wf(),
        ensures
            !self.config.committed ==> r == Err::<(), OTActorError>(OTActorError::NotCommitted),
            self.config.committed && self.state is Initialized ==> r == Err::<(), OTActorError>(
                OTActorError::WrongState,
            ),
            self.config.committed && self.state is Ready ==> r == (if self.verify_accepts(
                id@,
                data@,
                *revealed,
            ) {
                Ok::<(), OTActorError>(())
            } else {
                Err::<(), OTActorError>(OTActorError::VerificationFailed)
            }),
    {
        if !self.config.committed {
            return Err(OTActorError::NotCommitted);
        }
        match self.state {
            ActorState::Initialized => Err(OTActorError::WrongState),
            ActorState::Ready => {
                let id_owned: String = id.to_owned();
                let i = match find_received(&self.records, &id_owned) {
                    Some(i) => i,
                    None => {
                        proof {
                            assert(first_received_index(self.records@, id@) < 0);
                            assert(!self.verify_accepts(id@, data@, *revealed));
                        }
                        return Err(OTActorError::VerificationFailed);
                    },
                };
                proof {
                    lemma_first_received_index(self.records@, id@);
                    assert(first_received_index(self.records@, id@) == i as int);
                }
                let rec = &self.records[i];
                let rev = match revealed.find(id) {
                    Some(rev) => rev,
                    None => {
                        proof {
                            assert(first_reveal_index(revealed.records@, id@) < 0);
                            assert(!self.verify_accepts(id@, data@, *revealed));
                        }
                        return Err(OTActorError::VerificationFailed);
                    },
                };
                if rev.data.len() != data.len() || rec.choices.len() != data.len()
                    || rec.blocks.len() != data.len() {
                    proof {
                        assert(!self.verify_accepts(id@, data@, *revealed));
                    }
                    return Err(OTActorError::VerificationFailed);
                }
                let len = data.len();
                let mut k: usize = 0;
                while k < len
                    invariant
                        0 <= k <= len,
                        len == data@.len(),
                        rev.data@.len() == len,
                        rec.choices@.len() == len,
                        rec.blocks@.len() == len,
                        self.config.committed,
                        self.state is Ready,
                        0 <= first_received_index(self.records@, id@) < self.records@.len(),
                        *rec == self.records@[first_received_index(self.records@, id@)],
                        first_reveal_index(revealed.records@, id@) >= 0,
                        *rev == revealed.records@[first_reveal_index(revealed.records@, id@)],
                        forall|j: int| 0 <= j < k ==> #[trigger] rev.data@[j] == data@[j],
                        forall|j: int|
                            0 <= j < k ==> #[trigger] rec.blocks@[j] == spec_select(
                                data@[j],
                                rec.choices@[j],
                            ),
                    decreases len - k,
                {
                    if !(rev.data[k] == data[k]) {
                        proof {
                            assert(rev.data@[k as int] != data@[k as int]);
                            assert(!self.verify_accepts(id@, data@, *revealed));
                        }
                        return Err(OTActorError::VerificationFailed);
                    }
                    let expected = data[k].select(rec.choices[k]);
                    if !(rec.blocks[k] == expected) {
                        proof {
                            assert(rec.blocks@[k as int] != spec_select(
                                data@[k as int],
                                rec.choices@[k as int],
                            ));
                            assert(!self.verify_accepts(id@, data@, *revealed));
                        }
                        return Err(OTActorError::VerificationFailed);
                    }
                    k = k + 1;
                }
                proof {
                    assert(reveal_matches(self.records@[i as int], *rev, data@));
                    assert(self.verify_accepts(id@, data@, *revealed));
                }
                Ok(())
            },
        }
    }
}

} // verus!
