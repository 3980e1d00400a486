//! The pool allocator: bookkeeping for a pre-provisioned pool of OT
//! instances, carved into contiguous, never-reused slices.
//!
//! A pool tracks how many instances the last `setup` promised
//! (`total_setup`) and how many have been reserved so far (`consumed`, the
//! cursor).  Every accepted slice request advances the cursor and records
//! the session id together with its half-open range; the cursor never
//! moves backwards and a range, once assigned, is never reassigned.  The
//! central safety fact — all recorded ranges are pairwise disjoint and
//! together cover exactly the consumed prefix — is proved in
//! [`lemma_allocations_disjoint`].

use vstd::prelude::*;

use crate::error::OTActorError;

verus! {

/// A half-open range `[start, start + len)` of pool slots.
#[derive(Clone, Copy, Debug, PartialEq, Eq, Structural)]
pub struct SlotRange {
    /// First slot of the range.
    pub start: usize,
    /// Number of slots in the range.
    pub len: usize,
}

impl SlotRange {
    /// One past the last slot of the range.
    pub open spec fn end(self) -> int {
        self.start + self.len
    }
}

/// One accepted slice request: a session id and the range reserved for it.
pub struct Allocation {
    /// The session id the slice was reserved for.
    pub id: String,
    /// The reserved range.
    pub range: SlotRange,
}

/// Total length of the first `i` allocations.
pub open spec fn prefix_len(allocs: Seq<Allocation>, i: int) -> int
    decreases i,
{
    if i <= 0 {
        0
    } else {
        prefix_len(allocs, i - 1) + allocs[i - 1].range.len
    }
}

/// Two ranges with no slot in common.
pub open spec fn disjoint_ranges(a: SlotRange, b: SlotRange) -> bool {
    a.end() <= b.start || b.end() <= a.start
}

/// Per-party bookkeeping of one pre-provisioned OT pool.
pub struct OTPool {
    /// Number of instances promised by the last setup.
    pub total_setup: usize,
    /// Cursor: number of instances reserved so far.
    pub consumed: usize,
    /// Accepted slice requests, in reservation order.
    pub allocations: Vec<Allocation>,
}

impl OTPool {
    /// Well-formedness: the cursor never passes the provisioned total, and
    /// the recorded allocations tile the consumed prefix without gap or
    /// overlap, in reservation order.
    pub open spec fn wf(self) -> bool {
        &&& self.consumed <= self.total_setup
        &&& self.consumed == prefix_len(self.allocations@, self.allocations@.len() as int)
        &&& forall|i: int|
            0 <= i < self.allocations@.len() ==> (#[trigger] self.allocations@[i]).range.start
                == prefix_len(self.allocations@, i)
    }

    /// Number of instances still unreserved.
    pub open spec fn available(self) -> int {
        self.total_setup - self.consumed
    }

    /// An empty pool provisioned with `total` instances.
    pub fn new(total: usize) -> (p: OTPool)
        ensures
            p.wf(),
            p.total_setup == total,
            p.consumed == 0,
            p.allocations@.len() == 0,
    {
        OTPool { total_setup: total, consumed: 0, allocations: Vec::new() }
    }

    /// Reserves the next `len` slots for `id`.
    ///
    /// On success the returned range starts at the old cursor, the cursor
    /// advances by `len`, and the allocation is appended to the record.
    /// Fails with `InsufficientPool`, leaving the pool untouched, exactly
    /// when `len` exceeds what is still unreserved.
    pub fn reserve(&mut self, id: &str, len: usize) -> (r: Result<SlotRange, OTActorError>)
        requires
            old(self).wf(),
        ensures
            final(self).wf(),
            final(self).total_setup == old(self).total_setup,
            len > old(self).available() ==> {
                &&& r == Err::<SlotRange, OTActorError>(
                    OTActorError::InsufficientPool {
                        requested: len,
                        available: (old(self).total_setup - old(self).consumed) as usize,
                    },
                )
                &&& *final(self) == *old(self)
            },
            len <= old(self).available() ==> {
                &&& r == Ok::<SlotRange, OTActorError>(
                    SlotRange { start: old(self).consumed, len },
                )
                &&& final(self).consumed == old(self).consumed + len
                &&& final(self).allocations@.len() == old(self).allocations@.len() + 1
                &&& forall|i: int|
                    0 <= i < old(self).allocations@.len() ==> final(self).allocations@[i] == old(
                        self,
                    ).allocations@[i]
                &&& final(self).allocations@.last().id@ == id@
                &&& final(self).allocations@.last().range == (SlotRange {
                    start: old(self).consumed,
                    len,
                })
            },
    {
        let remaining = self.total_setup - self.consumed;
        if len > remaining {
            return Err(OTActorError::InsufficientPool { requested: len, available: remaining });
        }
        let range = SlotRange { start: self.consumed, len };
        let allocation = Allocation { id: id.to_owned(), range };
        proof {
            lemma_prefix_len_push(self.allocations@, allocation, self.allocations@.len() as int);
        }
        self.allocations.push(allocation);
        self.consumed = self.consumed + len;
        proof {
            let s = self.allocations@;
            assert forall|i: int| 0 <= i < s.len() implies (#[trigger] s[i]).range.start
                == prefix_len(s, i) by {
                lemma_prefix_len_push(old(self).allocations@, allocation, i);
            }
        }
        Ok(range)
    }
}

/// Appending an allocation does not change the length of any prefix that
/// stops short of it.
proof fn lemma_prefix_len_push(allocs: Seq<Allocation>, a: Allocation, i: int)
    requires
        0 <= i <= allocs.len(),
    ensures
        prefix_len(allocs.push(a), i) == prefix_len(allocs, i),
    decreases i,
{
    if i > 0 {
        lemma_prefix_len_push(allocs, a, i - 1);
    }
}

/// Prefix lengths only grow: each allocation contributes a non-negative
/// length.
pub proof fn lemma_prefix_len_monotone(allocs: Seq<Allocation>, i: int, j: int)
    requires
        0 <= i <= j,
    ensures
        prefix_len(allocs, i) <= prefix_len(allocs, j),
    decreases j,
{
    if i < j {
        lemma_prefix_len_monotone(allocs, i, j - 1);
    }
}

/// The central pool-safety law: in a well-formed pool the reserved ranges
/// are pairwise disjoint, and together they cover exactly the consumed
/// prefix — the cursor equals the sum of all reserved lengths.
pub proof fn lemma_allocations_disjoint(pool: OTPool)
    requires
        pool.wf(),
    ensures
        forall|i: int, j: int|
            0 <= i < j < pool.allocations@.len() ==> disjoint_ranges(
                (#[trigger] pool.allocations@[i]).range,
                (#[trigger] pool.allocations@[j]).range,
            ),
        pool.consumed == prefix_len(pool.allocations@, pool.allocations@.len() as int),
{
    let s = pool.allocations@;
    assert forall|i: int, j: int| 0 <= i < j < s.len() implies disjoint_ranges(
        (#[trigger] s[i]).range,
        (#[trigger] s[j]).range,
    ) by {
        assert(s[i].range.start == prefix_len(s, i));
        assert(s[j].range.start == prefix_len(s, j));
        assert(prefix_len(s, i + 1) == prefix_len(s, i) + s[i].range.len);
        lemma_prefix_len_monotone(s, i + 1, j);
    }
}

} // verus!
