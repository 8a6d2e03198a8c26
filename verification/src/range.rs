//! Block identifiers, unwind targets, and validated block ranges.

use vstd::prelude::*;

verus! {

/// A 32-byte block hash, held as four 64-bit words.
#[derive(Clone, Copy, Debug, PartialEq, Eq, Structural)]
pub struct BlockHash {
    pub w0: u64,
    pub w1: u64,
    pub w2: u64,
    pub w3: u64,
}

/// A block referenced either by its hash or by its number.
#[derive(Clone, Copy, Debug, PartialEq, Eq, Structural)]
pub enum BlockHashOrNumber {
    Hash(BlockHash),
    Number(u64),
}

/// The caller's unwind target: roll back to a given block (that block
/// itself stays), or roll back a given number of blocks from the head.
#[derive(Clone, Copy, Debug, PartialEq, Eq, Structural)]
pub enum UnwindTarget {
    ToBlock(BlockHashOrNumber),
    NumBlocks(u64),
}

/// An inclusive range of block numbers to remove.
///
/// Well-formed ranges are non-empty and never contain the genesis block
/// (number 0); the invariant is established at construction and every
/// producer in this crate only hands out well-formed ranges.
#[derive(Clone, Copy, Debug, PartialEq, Eq, Structural)]
pub struct BlockRange {
    pub start: u64,
    pub end: u64,
}

impl BlockRange {
    /// Non-empty, and genesis is never inside the range.
    pub open spec fn wf(self) -> bool {
        1 <= self.start && self.start <= self.end
    }

    /// How many blocks the range covers.
    pub open spec fn count_spec(self) -> u64
        recommends
            self.wf(),
    {
        (self.end - self.start + 1) as u64
    }

    pub fn new(start: u64, end: u64) -> (r: BlockRange)
        requires
            1 <= start <= end,
        ensures
            r.start == start,
            r.end == end,
            r.wf(),
    {
        BlockRange { start, end }
    }

    pub fn count(&self) -> (n: u64)
        requires
            self.wf(),
        ensures
            n == self.count_spec(),
    {
        self.end - self.start + 1
    }
}

} // verus!
