//! Resolution of an unwind target into a validated block range.

use vstd::prelude::*;

use crate::errors::UnwindError;
use crate::range::BlockHashOrNumber;
use crate::range::BlockRange;
use crate::range::UnwindTarget;
use crate::state::ChainModel;
use crate::state::ChainState;
use crate::state::lookup_hash;

verus! {

/// `a - b`, floored at zero.
pub open spec fn saturating_sub64(a: u64, b: u64) -> u64 {
    if a >= b {
        (a - b) as u64
    } else {
        0
    }
}

/// The block number the target names against state `m`: the explicit
/// number, the number its hash is indexed under, or the head less the
/// given count, floored at genesis. `None` when the hash is unknown.
pub open spec fn target_number_spec(m: ChainModel, target: UnwindTarget) -> Option<u64> {
    match target {
        UnwindTarget::ToBlock(BlockHashOrNumber::Number(n)) => Some(n),
        UnwindTarget::ToBlock(BlockHashOrNumber::Hash(h)) => lookup_hash(m.index, h),
        UnwindTarget::NumBlocks(n) => Some(saturating_sub64(m.head, n)),
    }
}

/// What resolution owes for every target: the range `[target + 1, head]`
/// — the target block itself always stays — or the error for it.
/// A target cutting at genesis is refused before anything else; a target
/// at or past the head leaves nothing to unwind.
pub open spec fn resolve_spec(m: ChainModel, target: UnwindTarget) -> Result<
    BlockRange,
    UnwindError,
> {
    match target_number_spec(m, target) {
        None => Err(UnwindError::UnknownBlock),
        Some(t) => if t == 0 {
            Err(UnwindError::GenesisUnwind)
        } else if t >= m.head {
            Err(UnwindError::InvalidRange)
        } else {
            Ok(BlockRange { start: (t + 1) as u64, end: m.head })
        },
    }
}

/// Turn the caller's target into the inclusive range to remove, against
/// a read-only snapshot of the chain state. No side effects.
pub fn resolve(s: &ChainState, target: UnwindTarget) -> (r: Result<BlockRange, UnwindError>)
    ensures
        r == resolve_spec(s.model(), target),
        r matches Ok(range) ==> range.wf() && range.end == s.head && target_number_spec(
            s.model(),
            target,
        ) == Some((range.start - 1) as u64),
{
    let last: u64 = s.chain_head();
    let looked_up: Option<u64> = match target {
        UnwindTarget::ToBlock(BlockHashOrNumber::Hash(h)) => s.lookup_block_number(h),
        UnwindTarget::ToBlock(BlockHashOrNumber::Number(n)) => Some(n),
        UnwindTarget::NumBlocks(n) => Some(
            if last >= n {
                last - n
            } else {
                0
            },
        ),
    };
    match looked_up {
        None => Err(UnwindError::UnknownBlock),
        Some(t) => {
            if t == 0 {
                Err(UnwindError::GenesisUnwind)
            } else if t >= last {
                Err(UnwindError::InvalidRange)
            } else {
                Ok(BlockRange::new(t + 1, last))
            }
        },
    }
}

} // verus!
