//! In-process composition of a connected Sender/Receiver actor pair.
//!
//! The cryptographic OT-extension engine is outside this crate; its
//! functional content, though, is exactly [`spec_exchange`]: for every
//! slot the Receiver obtains the one block of the Sender's pair that its
//! choice bit selects.  [`exchange`] realizes that functionality for
//! in-process pairings (as used by plain-mode embeddings and tests), and
//! [`transfer`] drives one whole split — Sender reservation, assignment,
//! exchange, Receiver completion — through the two actors, proving the
//! round-trip property end to end.

use vstd::prelude::*;

use crate::block::spec_select;
use crate::block::Block;
use crate::block::BlockPair;
use crate::error::OTActorError;
use crate::msg::RevealMessage;
use crate::msg::RevealRecord;
use crate::pool::SlotRange;
use crate::receiver::reveal_matches;
use crate::receiver::KOSReceiverActor;
use crate::receiver::ReceivedRecord;
use crate::sender::KOSSenderActor;

verus! {

/// The OT functionality: block `k` of the result is the block of
/// `data[k]` that `choices[k]` selects.
pub open spec fn spec_exchange(data: Seq<BlockPair>, choices: Seq<bool>) -> Seq<Block> {
    Seq::new(data.len(), |k: int| spec_select(data[k], choices[k]))
}

/// The round-trip law of oblivious transfer: the value delivered at
/// position `k` is exactly `data[k]` selected by `choices[k]`, for every
/// position of every exchange.
pub proof fn lemma_round_trip(data: Seq<BlockPair>, choices: Seq<bool>)
    requires
        data.len() == choices.len(),
    ensures
        spec_exchange(data, choices).len() == data.len(),
        forall|k: int|
            0 <= k < data.len() ==> spec_exchange(data, choices)[k] == spec_select(
                data[k],
                choices[k],
            ),
{
}

/// Performs the OT functionality for one slice: selects, slot by slot,
/// the block of each pair that the corresponding choice bit picks.
pub fn exchange(data: &Vec<BlockPair>, choices: &Vec<bool>) -> (r: Vec<Block>)
    requires
        data@.len() == choices@.len(),
    ensures
        r@ == spec_exchange(data@, choices@),
{
    let mut r: Vec<Block> = Vec::new();
    let mut k: usize = 0;
    while k < data.len()
        invariant
            data@.len() == choices@.len(),
            0 <= k <= data@.len(),
            r@.len() == k,
            forall|j: int| 0 <= j < k ==> r@[j] == spec_select(data@[j], choices@[j]),
        decreases data@.len() - k,
    {
        let b = data[k].select(choices[k]);
        r.push(b);
        k = k + 1;
    }
    proof {
        assert(r@ =~= spec_exchange(data@, choices@));
    }
    r
}

/// The committed-mode honesty law: a session whose delivered blocks were
/// produced by the OT functionality from the revealed inputs and the
/// recorded choices passes verification against those same inputs.
pub proof fn lemma_committed_verify_succeeds(
    rec: ReceivedRecord,
    rev: RevealRecord,
    data: Seq<BlockPair>,
)
    requires
        rev.data@ == data,
        rec.choices@.len() == data.len(),
        rec.blocks@.len() == data.len(),
        forall|k: int|
            0 <= k < data.len() ==> #[trigger] rec.blocks@[k] == spec_select(
                data[k],
                rec.choices@[k],
            ),
    ensures
        reveal_matches(rec, rev, data),
{
}

/// The committed-mode tampering law: if the inputs the caller expects
/// differ anywhere from the inputs the Sender revealed, verification
/// rejects — whatever the recorded session holds.
pub proof fn lemma_tampered_reveal_fails(
    rec: ReceivedRecord,
    rev: RevealRecord,
    data: Seq<BlockPair>,
    k: int,
)
    requires
        0 <= k < data.len(),
        rev.data@[k] != data[k],
    ensures
        !reveal_matches(rec, rev, data),
{
}

/// The committed-mode end-to-end law for one session: a Receiver whose
/// only retained record holds the blocks the OT functionality produced
/// from `data` and `choices` — exactly what a successful committed
/// [`transfer`] retains — accepts a reveal of those same inputs.
pub proof fn lemma_committed_session_verifies(
    r: KOSReceiverActor,
    revealed: RevealMessage,
    id: Seq<char>,
    data: Seq<BlockPair>,
    choices: Seq<bool>,
)
    requires
        r.records@.len() == 1,
        r.records@[0].id@ == id,
        r.records@[0].choices@ == choices,
        r.records@[0].blocks@ == spec_exchange(data, choices),
        revealed.records@.len() == 1,
        revealed.records@[0].id@ == id,
        revealed.records@[0].data@ == data,
        choices.len() == data.len(),
    ensures
        r.verify_accepts(id, data, revealed),
{
    assert(crate::receiver::first_received_index(r.records@, id) == 0);
    assert(crate::msg::first_reveal_index(revealed.records@, id) == 0);
    lemma_round_trip(data, choices);
    assert(reveal_matches(r.records@[0], revealed.records@[0], data));
}

/// How one accepted `send(id, data)` call leaves the Sender actor: the
/// cursor advanced by `data.len()`, the new allocation appended, and — in
/// committed mode — the inputs retained.
pub open spec fn sender_advanced(
    s_old: KOSSenderActor,
    s_new: KOSSenderActor,
    id: Seq<char>,
    data: Seq<BlockPair>,
) -> bool {
    &&& s_new.state is Ready
    &&& s_new.config == s_old.config
    &&& s_new.pool.total_setup == s_old.pool.total_setup
    &&& s_new.pool.consumed == s_old.pool.consumed + data.len()
    &&& s_new.pool.allocations@.len() == s_old.pool.allocations@.len() + 1
    &&& forall|i: int|
        0 <= i < s_old.pool.allocations@.len() ==> s_new.pool.allocations@[i]
            == s_old.pool.allocations@[i]
    &&& s_new.pool.allocations@.last().id@ == id
    &&& s_new.pool.allocations@.last().range == (SlotRange {
        start: s_old.pool.consumed,
        len: data.len() as usize,
    })
    &&& s_old.config.committed ==> {
        &&& s_new.records@.len() == s_old.records@.len() + 1
        &&& forall|i: int| 0 <= i < s_old.records@.len() ==> s_new.records@[i] == s_old.records@[i]
        &&& s_new.records@.last().id@ == id
        &&& s_new.records@.last().data@ == data
    }
    &&& !s_old.config.committed ==> s_new.records@ == s_old.records@
}

/// When one whole split goes through: both actors set up, no receive in
/// flight, one choice bit per message pair, the two cursors in agreement,
/// and room for the slice on both sides.
pub open spec fn transfer_ok(
    s: KOSSenderActor,
    r: KOSReceiverActor,
    data: Seq<BlockPair>,
    choices: Seq<bool>,
) -> bool {
    &&& s.state is Ready
    &&& data.len() <= s.pool.available()
    &&& r.state is Ready
    &&& r.pending is None
    &&& choices.len() == data.len()
    &&& r.pool.consumed == s.pool.consumed
    &&& data.len() <= r.pool.available()
}

/// Drives one split through a connected actor pair: the Sender reserves
/// `data.len()` slots for `id` and emits the assignment, the OT
/// functionality runs over the reserved slice, and the Receiver validates
/// the assignment and hands the delivered blocks back.
///
/// Succeeds exactly under [`transfer_ok`], and then delivers
/// `spec_exchange(data, choices)` — block `k` is `data[k]` selected by
/// `choices[k]`.  A Sender-side failure (`WrongState` before setup,
/// `InsufficientPool` past the pool's remainder) leaves both actors
/// untouched.  A Receiver-side failure surfaces after the Sender's
/// reservation: the reserved slice stays consumed, as a cancelled or
/// failed request never rolls back a granted reservation.
pub fn transfer(
    sender: &mut KOSSenderActor,
    receiver: &mut KOSReceiverActor,
    id: &str,
    data: &Vec<BlockPair>,
    choices: &Vec<bool>,
) -> (ret: Result<Vec<Block>, OTActorError>)
    requires
        old(sender).wf(),
        old(receiver).wf(),
    ensures
        final(sender).wf(),
        final(receiver).wf(),
        ret matches Ok(b) ==> b@ == spec_exchange(data@, choices@),
        transfer_ok(*old(sender), *old(receiver), data@, choices@) ==> {
            &&& ret is Ok
            &&& sender_advanced(*old(sender), *final(sender), id@, data@)
            &&& final(receiver).state is Ready
            &&& final(receiver).pending is None
            &&& final(receiver).config == old(receiver).config
            &&& final(receiver).pool.total_setup == old(receiver).pool.total_setup
            &&& final(receiver).pool.consumed == old(receiver).pool.consumed + data@.len()
            &&& final(receiver).pool.allocations@.len() == old(
                receiver,
            ).pool.allocations@.len() + 1
            &&& old(receiver).config.committed ==> {
                &&& final(receiver).records@.len() == old(receiver).records@.len() + 1
                &&& forall|i: int|
                    0 <= i < old(receiver).records@.len() ==> final(receiver).records@[i] == old(
                        receiver,
                    ).records@[i]
                &&& final(receiver).records@.last().id@ == id@
                &&& final(receiver).records@.last().choices@ == choices@
                &&& final(receiver).records@.last().blocks@ == spec_exchange(data@, choices@)
            }
            &&& !old(receiver).config.committed ==> final(receiver).records@ == old(
                receiver,
            ).records@
        },
        old(sender).state is Initialized ==> ret == Err::<Vec<Block>, OTActorError>(
            OTActorError::WrongState,
        ) && *final(sender) == *old(sender) && *final(receiver) == *old(receiver),
        old(sender).state is Ready && data@.len() > old(sender).pool.available() ==> ret == Err::<
            Vec<Block>,
            OTActorError,
        >(
            OTActorError::InsufficientPool {
                requested: data@.len() as usize,
                available: (old(sender).pool.total_setup - old(sender).pool.consumed) as usize,
            },
        ) && *final(sender) == *old(sender) && *final(receiver) == *old(receiver),
        old(sender).state is Ready && data@.len() <= old(sender).pool.available() ==> sender_advanced(
            *old(sender),
            *final(sender),
            id@,
            data@,
        ),
        old(sender).state is Ready && data@.len() <= old(sender).pool.available() && old(
            receiver,
        ).state is Initialized ==> ret == Err::<Vec<Block>, OTActorError>(
            OTActorError::WrongState,
        ) && *final(receiver) == *old(receiver),
        old(sender).state is Ready && data@.len() <= old(sender).pool.available() && old(
            receiver,
        ).state is Ready && old(receiver).pending is Some ==> ret == Err::<Vec<Block>, OTActorError>(
            OTActorError::WrongState,
        ) && *final(receiver) == *old(receiver),
        old(sender).state is Ready && data@.len() <= old(sender).pool.available() && old(
            receiver,
        ).state is Ready && old(receiver).pending is None && choices@.len() != data@.len() ==> ret
            == Err::<Vec<Block>, OTActorError>(
            OTActorError::LengthMismatch {
                expected: data@.len() as usize,
                actual: choices@.len() as usize,
            },
        ) && *final(receiver) == *old(receiver),
        old(sender).state is Ready && data@.len() <= old(sender).pool.available() && old(
            receiver,
        ).state is Ready && old(receiver).pending is None && choices@.len() == data@.len() && old(
            receiver,
        ).pool.consumed != old(sender).pool.consumed ==> ret == Err::<Vec<Block>, OTActorError>(
            OTActorError::OrderMismatch,
        ) && *final(receiver) == *old(receiver),
        old(sender).state is Ready && data@.len() <= old(sender).pool.available() && old(
            receiver,
        ).state is Ready && old(receiver).pending is None && choices@.len() == data@.len() && old(
            receiver,
        ).pool.consumed == old(sender).pool.consumed && data@.len() > old(
            receiver,
        ).pool.available() ==> ret == Err::<Vec<Block>, OTActorError>(
            OTActorError::InsufficientPool {
                requested: data@.len() as usize,
                available: (old(receiver).pool.total_setup - old(receiver).pool.consumed) as usize,
            },
        ) && *final(receiver) == *old(receiver),
{
    let assignment = match sender.send(id, data) {
        Ok(assignment) => assignment,
        Err(e) => {
            return Err(e);
        },
    };
    match receiver.begin_receive(id, choices, &assignment) {
        Ok(_) => (),
        Err(e) => {
            return Err(e);
        },
    }
    let blocks = exchange(data, choices);
    receiver.complete_receive(blocks)
}

} // verus!
