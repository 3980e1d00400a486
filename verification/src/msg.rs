//! The control messages the Sender actor issues to its paired Receiver
//! actor over the dedicated coordination channel.
//!
//! The Sender is the sole authority on how the pool is partitioned: each
//! accepted `send` emits a [`SplitMessage`] naming the session id and the
//! reserved range, and the Receiver must apply these assignments in
//! exactly the order they were emitted.  In committed mode a later
//! [`RevealMessage`] carries the Sender's retained inputs so the Receiver
//! can check past transfers.

use vstd::prelude::*;

use crate::block::BlockPair;

verus! {

/// A Sender-issued assignment: session `id` owns the pool slice
/// `[start, start + len)`.
pub struct SplitMessage {
    /// The session id the slice belongs to.
    pub id: String,
    /// First slot of the assigned slice.
    pub start: usize,
    /// Number of slots in the assigned slice.
    pub len: usize,
}

/// The Sender's retained inputs for one committed session.
pub struct RevealRecord {
    /// The session id the inputs belong to.
    pub id: String,
    /// The message pairs handed to `send` for this session.
    pub data: Vec<BlockPair>,
}

/// The Sender's whole-pool reveal: the retained inputs of every committed
/// session, in the order the sessions were accepted.
pub struct RevealMessage {
    /// One record per committed session.
    pub records: Vec<RevealRecord>,
}

/// Everything that travels over the coordination channel, for embeddings
/// that multiplex both message kinds onto one transport.
pub enum OTActorMessage {
    /// A slice assignment.
    Split(SplitMessage),
    /// A whole-pool reveal.
    Reveal(RevealMessage),
}

/// Index of the first reveal record carrying `id`, or `-1` if none does.
pub open spec fn first_reveal_index(records: Seq<RevealRecord>, id: Seq<char>) -> int
    decreases records.len(),
{
    if records.len() == 0 {
        -1
    } else if records[0].id@ == id {
        0
    } else {
        let rest = first_reveal_index(records.drop_first(), id);
        if rest < 0 {
            -1
        } else {
            rest + 1
        }
    }
}

/// The first reveal index is a genuine first match: it lies in bounds and
/// carries `id` whenever some record does, and nothing before it does.
pub proof fn lemma_first_reveal_index(records: Seq<RevealRecord>, id: Seq<char>)
    ensures
        first_reveal_index(records, id) >= 0 ==> {
            &&& first_reveal_index(records, id) < records.len()
            &&& records[first_reveal_index(records, id)].id@ == id
        },
        forall|j: int|
            0 <= j < records.len() && j < first_reveal_index(records, id)
                || (first_reveal_index(records, id) < 0 && 0 <= j < records.len()) ==> (
            #[trigger] records[j]).id@ != id,
    decreases records.len(),
{
    if records.len() > 0 && records[0].id@ != id {
        lemma_first_reveal_index(records.drop_first(), id);
        assert forall|j: int|
            0 <= j < records.len() && j < first_reveal_index(records, id)
                || (first_reveal_index(records, id) < 0 && 0 <= j < records.len()) implies (
        #[trigger] records[j]).id@ != id by {
            if j > 0 {
                assert(records[j] == records.drop_first()[j - 1]);
            }
        }
    }
}

impl RevealMessage {
    /// Looks up the first record carrying `id`.
    pub fn find(&self, id: &str) -> (r: Option<&RevealRecord>)
        ensures
            first_reveal_index(self.records@, id@) >= 0 ==> (r matches Some(rec) && *rec
                == self.records@[first_reveal_index(self.records@, id@)]),
            first_reveal_index(self.records@, id@) < 0 ==> r is None,
    {
        let id_owned: String = id.to_owned();
        let n = self.records.len();
        let mut i: usize = 0;
        while i < n
            invariant
                0 <= i <= n,
                n == self.records@.len(),
                id_owned@ == id@,
                forall|j: int| 0 <= j < i ==> (#[trigger] self.records@[j]).id@ != id@,
            decreases n - i,
        {
            if self.records[i].id == id_owned {
                proof {
                    lemma_first_index_from_witness(self.records@, id@, i as int);
                }
                return Some(&self.records[i]);
            }
            i = i + 1;
        }
        proof {
            lemma_first_reveal_index(self.records@, id@);
            if first_reveal_index(self.records@, id@) >= 0 {
                assert(self.records@[first_reveal_index(self.records@, id@)].id@ == id@);
            }
        }
        None
    }
}

/// If position `i` carries `id` and no earlier position does, then `i` is
/// the first reveal index.
proof fn lemma_first_index_from_witness(records: Seq<RevealRecord>, id: Seq<char>, i: int)
    requires
        0 <= i < records.len(),
        records[i].id@ == id,
        forall|j: int| 0 <= j < i ==> (#[trigger] records[j]).id@ != id,
    ensures
        first_reveal_index(records, id) == i,
    decreases i,
{
    if i > 0 {
        assert(records[0].id@ != id);
        assert(records.drop_first()[i - 1].id@ == id);
        assert forall|j: int| 0 <= j < i - 1 implies (#[trigger] records.drop_first()[j]).id@
            != id by {
            assert(records.drop_first()[j] == records[j + 1]);
        }
        lemma_first_index_from_witness(records.drop_first(), id, i - 1);
    }
}

} // verus!
