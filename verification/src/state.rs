//! The observable state of the two storage tiers.

use vstd::prelude::*;

use crate::range::BlockHash;

verus! {

/// One entry of the mutable store's hash index: a block hash and the
/// number of the block it names.
#[derive(Clone, Copy, Debug, PartialEq, Eq, Structural)]
pub struct HashEntry {
    pub hash: BlockHash,
    pub number: u64,
}

/// The larger of two block numbers.
pub open spec fn max64(a: u64, b: u64) -> u64 {
    if a >= b {
        a
    } else {
        b
    }
}

/// The smaller of two block numbers.
pub open spec fn min64(a: u64, b: u64) -> u64 {
    if a <= b {
        a
    } else {
        b
    }
}

/// `after` is at least `before`, where absence is the least value.
pub open spec fn boundary_geq(after: Option<u64>, before: Option<u64>) -> bool {
    before matches Some(w) ==> (after matches Some(v) && v >= w)
}

/// A present finalized pointer never exceeds the head.
pub open spec fn finalized_at_most(finalized: Option<u64>, head: u64) -> bool {
    finalized matches Some(f) ==> f <= head
}

/// The first index entry naming `hash`, if any.
pub open spec fn lookup_hash(index: Seq<HashEntry>, hash: BlockHash) -> Option<u64>
    decreases index.len(),
{
    if index.len() == 0 {
        None::<u64>
    } else if index[0].hash == hash {
        Some(index[0].number)
    } else {
        lookup_hash(index.skip(1), hash)
    }
}

/// The index entries that survive a cut of the chain at `new_head`:
/// exactly those whose block number is at most `new_head`, in order.
pub open spec fn pruned_index(index: Seq<HashEntry>, new_head: u64) -> Seq<HashEntry>
    decreases index.len(),
{
    if index.len() == 0 {
        Seq::empty()
    } else {
        let init = pruned_index(index.drop_last(), new_head);
        if index.last().number <= new_head {
            init.push(index.last())
        } else {
            init
        }
    }
}

/// Every entry of a pruned index is at most the cut.
pub proof fn lemma_pruned_index_bound(index: Seq<HashEntry>, new_head: u64)
    ensures
        forall|j: int|
            0 <= j < pruned_index(index, new_head).len() ==> pruned_index(index, new_head)[j].number
                <= new_head,
    decreases index.len(),
{
    if index.len() > 0 {
        lemma_pruned_index_bound(index.drop_last(), new_head);
        let init = pruned_index(index.drop_last(), new_head);
        let full = pruned_index(index, new_head);
        if index.last().number <= new_head {
            assert(full == init.push(index.last()));
            assert forall|j: int| 0 <= j < full.len() implies full[j].number <= new_head by {
                if j < init.len() {
                    assert(full[j] == init[j]);
                } else {
                    assert(full[j] == index.last());
                }
            }
        } else {
            assert(full == init);
        }
    }
}

/// The mathematical value of a [`ChainState`]: the four observable
/// quantities every contract of this crate speaks about.
pub ghost struct ChainModel {
    /// Highest block number known to the mutable store.
    pub head: u64,
    /// Highest block number held by the immutable tier, if it holds any.
    pub tier_boundary: Option<u64>,
    /// The most recently finalized block, if one was recorded.
    pub finalized: Option<u64>,
    /// Hash index of the mutable store.
    pub index: Seq<HashEntry>,
}

/// The chain state the unwind procedure observes and adjusts: the mutable
/// store's head and hash index, the immutable tier's high watermark, and
/// the finalized-block pointer.
///
/// The tier boundary may sit above the head: after a pipeline unwind the
/// immutable tier retains blocks that the mutable view no longer reaches,
/// because the boundary never retreats.
#[derive(Debug)]
pub struct ChainState {
    /// Highest block number known to the mutable store.
    pub head: u64,
    /// Highest block number held by the immutable tier, if it holds any.
    pub tier_boundary: Option<u64>,
    /// The most recently finalized block, if one was recorded.
    pub finalized: Option<u64>,
    /// Hash index of the mutable store.
    pub hash_index: Vec<HashEntry>,
}

impl ChainState {
    /// The abstract value of this state.
    pub open spec fn model(self) -> ChainModel {
        ChainModel {
            head: self.head,
            tier_boundary: self.tier_boundary,
            finalized: self.finalized,
            index: self.hash_index@,
        }
    }

    /// Every index entry names a block the mutable store still has.
    pub open spec fn wf(self) -> bool {
        forall|j: int| 0 <= j < self.hash_index@.len() ==> self.hash_index@[j].number <= self.head
    }

    pub fn new(head: u64, tier_boundary: Option<u64>, finalized: Option<u64>) -> (s: ChainState)
        ensures
            s.head == head,
            s.tier_boundary == tier_boundary,
            s.finalized == finalized,
            s.hash_index@.len() == 0,
            s.wf(),
    {
        ChainState { head, tier_boundary, finalized, hash_index: Vec::new() }
    }

    /// Record that `hash` names block `number` in the mutable store.
    pub fn insert_hash_entry(&mut self, hash: BlockHash, number: u64)
        requires
            old(self).wf(),
            number <= old(self).head,
        ensures
            final(self).head == old(self).head,
            final(self).tier_boundary == old(self).tier_boundary,
            final(self).finalized == old(self).finalized,
            final(self).hash_index@ == old(self).hash_index@.push(
                HashEntry { hash, number },
            ),
            final(self).wf(),
    {
        self.hash_index.push(HashEntry { hash, number });
    }

    /// Highest block number in the mutable store.
    pub fn chain_head(&self) -> (n: u64)
        ensures
            n == self.head,
    {
        self.head
    }

    /// The maximum block number across all immutable segments, or `None`
    /// if the immutable tier is empty. Pure read.
    pub fn immutable_high_watermark(&self) -> (w: Option<u64>)
        ensures
            w == self.tier_boundary,
    {
        self.tier_boundary
    }

    /// The recorded finalized-block pointer, if any. Pure read.
    pub fn finalized_pointer(&self) -> (f: Option<u64>)
        ensures
            f == self.finalized,
    {
        self.finalized
    }

    /// Look a block hash up in the mutable store's index.
    pub fn lookup_block_number(&self, hash: BlockHash) -> (r: Option<u64>)
        ensures
            r == lookup_hash(self.hash_index@, hash),
    {
        let n: usize = self.hash_index.len();
        let mut i: usize = 0;
        proof {
            assert(self.hash_index@.skip(0) =~= self.hash_index@);
        }
        while i < n
            invariant
                n == self.hash_index@.len(),
                i <= n,
                lookup_hash(self.hash_index@, hash) == lookup_hash(
                    self.hash_index@.skip(i as int),
                    hash,
                ),
            decreases n - i,
        {
            let e = self.hash_index[i];
            proof {
                assert(self.hash_index@.skip(i as int).len() == n - i);
                assert(self.hash_index@.skip(i as int)[0] == self.hash_index@[i as int]);
            }
            if e.hash == hash {
                return Some(e.number);
            }
            proof {
                assert(self.hash_index@.skip(i as int).skip(1) =~= self.hash_index@.skip(
                    i as int + 1,
                ));
            }
            i += 1;
        }
        proof {
            assert(self.hash_index@.skip(n as int).len() == 0);
        }
        None
    }
}

/// Drop every index entry above `new_head`, keeping the order of the rest.
pub fn prune_hash_index(index: &mut Vec<HashEntry>, new_head: u64)
    ensures
        final(index)@ == pruned_index(old(index)@, new_head),
{
    let mut kept: Vec<HashEntry> = Vec::new();
    let n: usize = index.len();
    let mut i: usize = 0;
    while i < n
        invariant
            n == index@.len(),
            i <= n,
            kept@ == pruned_index(index@.take(i as int), new_head),
        decreases n - i,
    {
        let e = index[i];
        proof {
            assert(index@.take(i as int + 1).drop_last() =~= index@.take(i as int));
            assert(index@.take(i as int + 1).last() == index@[i as int]);
        }
        if e.number <= new_head {
            kept.push(e);
        }
        i += 1;
    }
    proof {
        assert(index@.take(n as int) =~= index@);
    }
    *index = kept;
}

} // verus!
