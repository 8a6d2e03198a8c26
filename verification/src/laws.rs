//! The subsystem's global guarantees, stated and proved once for all
//! states, targets and collaborator outcomes.

use vstd::prelude::*;

use crate::errors::UnwindError;
use crate::orchestrator::StageRun;
use crate::orchestrator::UnwindPath;
use crate::orchestrator::migrate_model;
use crate::orchestrator::path_spec;
use crate::orchestrator::unwind_model;
use crate::range::BlockHashOrNumber;
use crate::range::BlockRange;
use crate::range::UnwindTarget;
use crate::resolver::resolve_spec;
use crate::resolver::target_number_spec;
use crate::stages::stages_cut_back;
use crate::state::ChainModel;
use crate::state::boundary_geq;
use crate::state::finalized_at_most;

verus! {

/// Any target naming a block above genesis and strictly below the head
/// resolves to the range from just past that block up to the head.
pub proof fn lemma_resolve_below_head(m: ChainModel, target: UnwindTarget, t: u64)
    requires
        target_number_spec(m, target) == Some(t),
        1 <= t < m.head,
    ensures
        resolve_spec(m, target) == Ok::<BlockRange, UnwindError>(
            BlockRange { start: (t + 1) as u64, end: m.head },
        ),
{
}

/// A target that would cut at genesis is refused as a genesis unwind,
/// before anything else; any other target at or past the head leaves
/// nothing to unwind and is refused as an invalid range.
pub proof fn lemma_resolve_rejects(m: ChainModel, target: UnwindTarget, t: u64)
    requires
        target_number_spec(m, target) == Some(t),
    ensures
        t == 0 ==> resolve_spec(m, target) == Err::<BlockRange, UnwindError>(
            UnwindError::GenesisUnwind,
        ),
        1 <= t && t >= m.head ==> resolve_spec(m, target) == Err::<BlockRange, UnwindError>(
            UnwindError::InvalidRange,
        ),
{
}

/// Unwinding twice to the same explicit block is a no-op the second
/// time: after the first success the head sits on the target itself, so
/// the repeated invocation is refused as an invalid range — whatever the
/// storage collaborators would have reported for it — and the state is
/// left exactly as the first unwind left it.
pub proof fn lemma_unwind_idempotent(
    m: ChainModel,
    t: u64,
    copied: bool,
    stages: StageRun,
    commit_ok: bool,
    copied2: bool,
    stages2: StageRun,
    commit_ok2: bool,
)
    requires
        unwind_model(
            m,
            UnwindTarget::ToBlock(BlockHashOrNumber::Number(t)),
            copied,
            stages,
            commit_ok,
        ).0 matches Ok(_),
    ensures
        ({
            let after = unwind_model(
                m,
                UnwindTarget::ToBlock(BlockHashOrNumber::Number(t)),
                copied,
                stages,
                commit_ok,
            ).1;
            unwind_model(
                after,
                UnwindTarget::ToBlock(BlockHashOrNumber::Number(t)),
                copied2,
                stages2,
                commit_ok2,
            ) == (Err::<u64, UnwindError>(UnwindError::InvalidRange), after)
        }),
{
}

/// The tier boundary never decreases: `boundary_geq` holds across one
/// whole unwind invocation, whatever its target and outcome, and it is
/// transitive, so it holds across any sequence of invocations.
pub proof fn lemma_unwind_boundary_monotone(
    m: ChainModel,
    target: UnwindTarget,
    copied: bool,
    stages: StageRun,
    commit_ok: bool,
)
    ensures
        boundary_geq(
            unwind_model(m, target, copied, stages, commit_ok).1.tier_boundary,
            m.tier_boundary,
        ),
{
}

/// `boundary_geq` is transitive: a chain of operations, each of which
/// never lets the boundary retreat, never lets it retreat overall.
pub proof fn lemma_boundary_geq_trans(b0: Option<u64>, b1: Option<u64>, b2: Option<u64>)
    requires
        boundary_geq(b1, b0),
        boundary_geq(b2, b1),
    ensures
        boundary_geq(b2, b0),
{
}

/// After any successful unwind the finalized pointer never names a block
/// past the head.
pub proof fn lemma_unwind_finalized_safe(
    m: ChainModel,
    target: UnwindTarget,
    copied: bool,
    stages: StageRun,
    commit_ok: bool,
)
    ensures
        unwind_model(m, target, copied, stages, commit_ok).0 matches Ok(_) ==> finalized_at_most(
            unwind_model(m, target, copied, stages, commit_ok).1.finalized,
            unwind_model(m, target, copied, stages, commit_ok).1.head,
        ),
{
}

/// The direct path is all-or-nothing: when its transaction cannot
/// commit, the invocation fails with a transaction error and the
/// observable state is exactly the state before the attempt.
pub proof fn lemma_direct_unwind_atomic(
    m: ChainModel,
    target: UnwindTarget,
    copied: bool,
    stages: StageRun,
)
    requires
        resolve_spec(m, target) matches Ok(range) && path_spec(m.tier_boundary, range)
            == UnwindPath::Direct,
    ensures
        unwind_model(m, target, copied, stages, false) == (
            Err::<u64, UnwindError>(UnwindError::TransactionError),
            m,
        ),
{
}

/// Migration is idempotent: once everything up to the head has been
/// copied, migrating again records nothing new.
pub proof fn lemma_migrate_idempotent(m: ChainModel)
    ensures
        migrate_model(migrate_model(m)) == migrate_model(m),
{
}

/// Retrying a completed stage unwind with the same cut is a no-op: every
/// stage was already reversed down to `to`, so nothing moves again.
pub proof fn lemma_stage_cut_idempotent(before: Seq<u64>, mid: Seq<u64>, after: Seq<u64>, to: u64)
    requires
        stages_cut_back(before, mid, to, StageRun::Completed),
        stages_cut_back(mid, after, to, StageRun::Completed),
    ensures
        after == mid,
{
    assert forall|j: int| 0 <= j < after.len() implies after[j] == mid[j] by {}
    assert(after =~= mid);
}

} // verus!
