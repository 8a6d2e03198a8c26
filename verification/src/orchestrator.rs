//! The unwind decision procedure and its two execution paths.

use vstd::prelude::*;

use crate::errors::UnwindError;
use crate::range::BlockHash;
use crate::range::BlockRange;
use crate::range::UnwindTarget;
use crate::resolver::resolve;
use crate::resolver::resolve_spec;
use crate::stages::StageSet;
use crate::stages::stage_run_of;
use crate::stages::stages_cut_back;
use crate::stages::unwind_stages;
use crate::state::ChainModel;
use crate::state::ChainState;
use crate::state::boundary_geq;
use crate::state::finalized_at_most;
use crate::state::lemma_pruned_index_bound;
use crate::state::max64;
use crate::state::prune_hash_index;
use crate::state::pruned_index;

verus! {

/// Which execution path an unwind takes.
#[derive(Clone, Copy, Debug, PartialEq, Eq, Structural)]
pub enum UnwindPath {
    /// One bulk deletion inside a single transaction of the mutable store.
    Direct,
    /// Migrate into the immutable tier first, then reverse every stage.
    Pipeline,
}

/// What the staged pipeline reported after driving the ordered stages
/// backwards: every stage completed, or the stage at the given position
/// failed and the stages after it were never invoked.
#[derive(Clone, Copy, Debug, PartialEq, Eq, Structural)]
pub enum StageRun {
    Completed,
    FailedAt { stage: u64 },
}

/// The pipeline path is owed exactly when the immutable tier already
/// holds the range's start; a range starting just above the watermark
/// never touches the boundary block and stays on the direct path.
pub open spec fn path_spec(watermark: Option<u64>, range: BlockRange) -> UnwindPath {
    if watermark matches Some(w) && w >= range.start {
        UnwindPath::Pipeline
    } else {
        UnwindPath::Direct
    }
}

/// The watermark after a migration: every block up to the head has been
/// copied into the immutable tier, and the boundary never retreats.
pub open spec fn advanced_boundary(boundary: Option<u64>, head: u64) -> Option<u64> {
    match boundary {
        Some(w) => Some(max64(w, head)),
        None => Some(head),
    }
}

/// The finalized pointer after a cut of the chain at `new_head`: lowered
/// onto the new head when it named a removed block, untouched otherwise.
pub open spec fn clamped_finalized(finalized: Option<u64>, new_head: u64) -> Option<u64> {
    match finalized {
        Some(f) => if f > new_head {
            Some(new_head)
        } else {
            Some(f)
        },
        None => None,
    }
}

/// The observable state after the chain has been cut back to `new_head`:
/// the head moves onto `new_head`, the finalized pointer is clamped so it
/// never names a removed block, the index keeps exactly the surviving
/// blocks, and the immutable tier is untouched.
pub open spec fn cut_model(m: ChainModel, new_head: u64) -> ChainModel {
    ChainModel {
        head: new_head,
        tier_boundary: m.tier_boundary,
        finalized: clamped_finalized(m.finalized, new_head),
        index: pruned_index(m.index, new_head),
    }
}

/// The observable state after a migration into the immutable tier.
pub open spec fn migrate_model(m: ChainModel) -> ChainModel {
    ChainModel {
        head: m.head,
        tier_boundary: advanced_boundary(m.tier_boundary, m.head),
        finalized: m.finalized,
        index: m.index,
    }
}

/// What a whole unwind invocation owes: the result handed to the caller
/// and the observable state left behind, for every target and for every
/// outcome the storage collaborators can report.
pub open spec fn unwind_model(
    m: ChainModel,
    target: UnwindTarget,
    copied: bool,
    stages: StageRun,
    commit_ok: bool,
) -> (Result<u64, UnwindError>, ChainModel) {
    match resolve_spec(m, target) {
        Err(e) => (Err(e), m),
        Ok(range) => if path_spec(m.tier_boundary, range) == UnwindPath::Pipeline {
            if !copied {
                (Err(UnwindError::MigrationError), m)
            } else {
                match stages {
                    StageRun::FailedAt { stage } => (
                        Err(UnwindError::StageFailure { stage }),
                        migrate_model(m),
                    ),
                    StageRun::Completed => (
                        Ok(range.count_spec()),
                        cut_model(migrate_model(m), (range.start - 1) as u64),
                    ),
                }
            }
        } else {
            if !commit_ok {
                (Err(UnwindError::TransactionError), m)
            } else {
                (Ok(range.count_spec()), cut_model(m, (range.start - 1) as u64))
            }
        },
    }
}

/// Decide which path serves `range`, from the immutable tier's watermark.
pub fn choose_path(s: &ChainState, range: &BlockRange) -> (p: UnwindPath)
    ensures
        p == path_spec(s.tier_boundary, *range),
{
    match s.immutable_high_watermark() {
        Some(w) => if w >= range.start {
            UnwindPath::Pipeline
        } else {
            UnwindPath::Direct
        },
        None => UnwindPath::Direct,
    }
}

/// Copy everything up to the current head that belongs in the immutable
/// tier into it. The copy itself is the stores' own bulk work; `copied`
/// is the outcome they report. On success the watermark covers the head;
/// on failure nothing is recorded and the state is untouched. The step is
/// idempotent and never lets the boundary retreat.
pub fn migrate_to_immutable(s: &mut ChainState, copied: bool) -> (r: Result<(), UnwindError>)
    ensures
        copied ==> (r matches Ok(_)) && final(s).model() == migrate_model(old(s).model()),
        !copied ==> r == Err::<(), UnwindError>(UnwindError::MigrationError) && *final(s) == *old(
            s,
        ),
        boundary_geq(final(s).tier_boundary, old(s).tier_boundary),
        old(s).wf() ==> final(s).wf(),
{
    if !copied {
        return Err(UnwindError::MigrationError);
    }
    let new_boundary: u64 = match s.immutable_high_watermark() {
        Some(w) => if w >= s.head {
            w
        } else {
            s.head
        },
        None => s.head,
    };
    s.tier_boundary = Some(new_boundary);
    Ok(())
}

/// The direct path: one transaction against the mutable store deletes
/// the whole range with its execution results, clamps the finalized
/// pointer inside the same transaction, and commits. `commit_ok` is the
/// commit's outcome; a failed commit rolls every prior step back, so the
/// operation is all-or-nothing. On success the head lands just below the
/// range and the count of removed blocks is returned.
pub fn direct_unwind(s: &mut ChainState, range: &BlockRange, commit_ok: bool) -> (r: Result<
    u64,
    UnwindError,
>)
    requires
        old(s).wf(),
        range.wf(),
        range.end == old(s).head,
    ensures
        commit_ok ==> r == Ok::<u64, UnwindError>(range.count_spec()) && final(s).model()
            == cut_model(old(s).model(), (range.start - 1) as u64),
        !commit_ok ==> r == Err::<u64, UnwindError>(UnwindError::TransactionError) && *final(s)
            == *old(s),
        boundary_geq(final(s).tier_boundary, old(s).tier_boundary),
        r matches Ok(_) ==> finalized_at_most(final(s).finalized, final(s).head),
        final(s).wf(),
{
    if !commit_ok {
        return Err(UnwindError::TransactionError);
    }
    let new_head: u64 = range.start - 1;
    s.head = new_head;
    match s.finalized {
        Some(f) => {
            if f > new_head {
                s.finalized = Some(new_head);
            }
        },
        None => {},
    }
    prune_hash_index(&mut s.hash_index, new_head);
    proof {
        lemma_pruned_index_bound(old(s).hash_index@, new_head);
    }
    Ok(range.count())
}

/// The pipeline path: reverse every stage in reverse dependency order
/// down to block `to`, which becomes the new head. The stages' storage
/// work is their own; `stages` is the outcome the pipeline reports. On a
/// stage failure the remaining stages are never invoked and the coarse
/// chain pointers are untouched — each stage applies its own unwind
/// atomically on its side. On success the new head is returned so it can
/// be broadcast to the tip listeners; `tip_hint` is handed through to
/// them and plays no part in the unwind itself.
#[allow(unused_variables)]
pub fn pipeline_unwind(
    s: &mut ChainState,
    to: u64,
    tip_hint: Option<BlockHash>,
    stages: StageRun,
) -> (r: Result<u64, UnwindError>)
    requires
        old(s).wf(),
        to < old(s).head,
    ensures
        stages matches StageRun::FailedAt { stage } ==> r == Err::<u64, UnwindError>(
            UnwindError::StageFailure { stage },
        ) && *final(s) == *old(s),
        stages == StageRun::Completed ==> r == Ok::<u64, UnwindError>(to) && final(s).model()
            == cut_model(old(s).model(), to),
        final(s).tier_boundary == old(s).tier_boundary,
        r matches Ok(_) ==> finalized_at_most(final(s).finalized, final(s).head),
        final(s).wf(),
{
    match stages {
        StageRun::FailedAt { stage } => Err(UnwindError::StageFailure { stage }),
        StageRun::Completed => {
            s.head = to;
            match s.finalized {
                Some(f) => {
                    if f > to {
                        s.finalized = Some(to);
                    }
                },
                None => {},
            }
            prune_hash_index(&mut s.hash_index, to);
            proof {
                lemma_pruned_index_bound(old(s).hash_index@, to);
            }
            Ok(to)
        },
    }
}

/// The whole decision procedure, one invocation of the unwind subsystem.
///
/// The target is resolved into a validated range; a range reaching into
/// the immutable tier goes through migration and the staged pipeline,
/// and any other range is removed directly inside a single transaction
/// of the mutable store. `copied`, `stages` and `commit_ok` are the
/// outcomes the storage collaborators report for their part of the work;
/// the procedure's behaviour is pinned for every combination of them by
/// [`unwind_model`]. On success the count of removed blocks is returned,
/// the tier boundary has not retreated, and the finalized pointer names
/// no removed block.
pub fn unwind(
    s: &mut ChainState,
    target: UnwindTarget,
    copied: bool,
    stages: StageRun,
    commit_ok: bool,
) -> (r: Result<u64, UnwindError>)
    requires
        old(s).wf(),
    ensures
        (r, final(s).model()) == unwind_model(old(s).model(), target, copied, stages, commit_ok),
        boundary_geq(final(s).tier_boundary, old(s).tier_boundary),
        r matches Ok(_) ==> finalized_at_most(final(s).finalized, final(s).head),
        final(s).wf(),
{
    let range: BlockRange = match resolve(s, target) {
        Ok(rg) => rg,
        Err(e) => {
            return Err(e);
        },
    };
    // Redundant safety check: resolution already refuses every range that
    // would reach the genesis block, but nothing below may rely on that.
    if range.start < 1 {
        return Err(UnwindError::GenesisUnwind);
    }
    match choose_path(s, &range) {
        UnwindPath::Pipeline => {
            match migrate_to_immutable(s, copied) {
                Ok(_) => {},
                Err(e) => {
                    return Err(e);
                },
            }
            match pipeline_unwind(s, range.start - 1, None, stages) {
                Ok(_) => {},
                Err(e) => {
                    return Err(e);
                },
            }
            Ok(range.count())
        },
        UnwindPath::Direct => direct_unwind(s, &range, commit_ok),
    }
}

/// One whole unwind invocation that also drives a concrete stage set.
///
/// This behaves exactly as [`unwind`] with the run the stages' outcomes
/// produce, and additionally records each successful stage's new
/// progress: when the pipeline path runs, every stage before the first
/// failing one has its checkpoint cut back onto the new head, and on any
/// other outcome the stage set is untouched.
pub fn unwind_with_stages(
    s: &mut ChainState,
    set: &mut StageSet,
    target: UnwindTarget,
    copied: bool,
    outcomes: &Vec<bool>,
    commit_ok: bool,
) -> (r: Result<u64, UnwindError>)
    requires
        old(s).wf(),
        outcomes@.len() == old(set).checkpoints@.len(),
    ensures
        (r, final(s).model()) == unwind_model(
            old(s).model(),
            target,
            copied,
            stage_run_of(outcomes@),
            commit_ok,
        ),
        boundary_geq(final(s).tier_boundary, old(s).tier_boundary),
        r matches Ok(_) ==> finalized_at_most(final(s).finalized, final(s).head),
        final(s).wf(),
        final(set).checkpoints@.len() == old(set).checkpoints@.len(),
        resolve_spec(old(s).model(), target) matches Ok(range) ==> (path_spec(
            old(s).tier_boundary,
            range,
        ) == UnwindPath::Pipeline && copied ==> stages_cut_back(
            old(set).checkpoints@,
            final(set).checkpoints@,
            (range.start - 1) as u64,
            stage_run_of(outcomes@),
        )),
        (resolve_spec(old(s).model(), target) matches Err(_) || (resolve_spec(
            old(s).model(),
            target,
        ) matches Ok(range) && path_spec(old(s).tier_boundary, range) == UnwindPath::Direct)
            || !copied) ==> final(set).checkpoints@ == old(set).checkpoints@,
{
    let range: BlockRange = match resolve(s, target) {
        Ok(rg) => rg,
        Err(e) => {
            return Err(e);
        },
    };
    // Redundant safety check, as in `unwind`.
    if range.start < 1 {
        return Err(UnwindError::GenesisUnwind);
    }
    match choose_path(s, &range) {
        UnwindPath::Pipeline => {
            match migrate_to_immutable(s, copied) {
                Ok(_) => {},
                Err(e) => {
                    return Err(e);
                },
            }
            let run: StageRun = unwind_stages(set, range.start - 1, outcomes);
            match pipeline_unwind(s, range.start - 1, None, run) {
                Ok(_) => {},
                Err(e) => {
                    return Err(e);
                },
            }
            Ok(range.count())
        },
        UnwindPath::Direct => direct_unwind(s, &range, commit_ok),
    }
}

} // verus!
