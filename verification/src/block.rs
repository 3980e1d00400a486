//! The opaque 128-bit value unit carried by a single OT instance.

use vstd::prelude::*;

verus! {

/// A 128-bit block, the payload unit of one OT slot.
#[derive(Clone, Copy, Debug, PartialEq, Eq, Structural, Hash)]
pub struct Block {
    /// The raw 128-bit value.
    pub value: u128,
}

impl Block {
    /// Builds a block from its raw value.
    pub fn new(value: u128) -> (b: Block)
        ensures
            b.value == value,
    {
        Block { value }
    }

    /// Returns the raw 128-bit value.
    pub fn inner(&self) -> (v: u128)
        ensures
            v == self.value,
    {
        self.value
    }
}

/// The Sender's pair of private values for one OT slot: the Receiver
/// obtains exactly one of the two, selected by its private choice bit.
#[derive(Clone, Copy, Debug, PartialEq, Eq, Structural, Hash)]
pub struct BlockPair {
    /// The value delivered for choice `false`.
    pub low: Block,
    /// The value delivered for choice `true`.
    pub high: Block,
}

/// The block of `pair` that a choice bit selects.
pub open spec fn spec_select(pair: BlockPair, choice: bool) -> Block {
    if choice {
        pair.high
    } else {
        pair.low
    }
}

impl BlockPair {
    /// Builds a pair from the two values.
    pub fn new(low: Block, high: Block) -> (p: BlockPair)
        ensures
            p.low == low,
            p.high == high,
    {
        BlockPair { low, high }
    }

    /// Returns the block selected by `choice`.
    pub fn select(&self, choice: bool) -> (b: Block)
        ensures
            b == spec_select(*self, choice),
    {
        if choice {
            self.high
        } else {
            self.low
        }
    }
}

/// Copies a vector of plain values element by element.
pub fn copy_vec<T: Copy>(v: &Vec<T>) -> (r: Vec<T>)
    ensures
        r@ == v@,
{
    let mut r: Vec<T> = Vec::new();
    let mut i: usize = 0;
    while i < v.len()
        invariant
            0 <= i <= v@.len(),
            r@ == v@.subrange(0, i as int),
        decreases v@.len() - i,
    {
        r.push(v[i]);
        proof {
            assert(r@ =~= v@.subrange(0, i + 1));
        }
        i = i + 1;
    }
    proof {
        assert(r@ =~= v@);
    }
    r
}

} // verus!
