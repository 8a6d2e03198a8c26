//! The ordered stage sequence and its unwind.
//!
//! A stage is one unit of chain processing with forward and backward
//! operations; its concrete storage work is a collaborator's. The
//! sequence's order is fixed at configuration time: the stage at index 0
//! is the highest level and unwinds first, so derived data is always
//! reversed before the data it was derived from.

use vstd::prelude::*;

use crate::orchestrator::StageRun;
use crate::state::min64;

verus! {

/// The progress checkpoints of the ordered stage sequence, one per
/// stage, in unwind order: index 0 unwinds first.
#[derive(Debug)]
pub struct StageSet {
    /// The highest block each stage has processed.
    pub checkpoints: Vec<u64>,
}

/// What driving the stages backwards reports, given the outcome each
/// stage's own unwind would report: the run completes when every stage
/// succeeds, and otherwise stops at the first failing stage.
pub open spec fn stage_run_of(outcomes: Seq<bool>) -> StageRun
    decreases outcomes.len(),
{
    if outcomes.len() == 0 {
        StageRun::Completed
    } else if !outcomes[0] {
        StageRun::FailedAt { stage: 0 }
    } else {
        match stage_run_of(outcomes.skip(1)) {
            StageRun::Completed => StageRun::Completed,
            StageRun::FailedAt { stage } => StageRun::FailedAt { stage: (stage + 1) as u64 },
        }
    }
}

/// When every stage succeeds, the run completes.
pub proof fn lemma_stage_run_of_complete(outcomes: Seq<bool>)
    requires
        forall|j: int| 0 <= j < outcomes.len() ==> outcomes[j],
    ensures
        stage_run_of(outcomes) == StageRun::Completed,
    decreases outcomes.len(),
{
    if outcomes.len() > 0 {
        assert(outcomes[0]);
        assert(forall|j: int| 0 <= j < outcomes.skip(1).len() ==> outcomes.skip(1)[j]);
        lemma_stage_run_of_complete(outcomes.skip(1));
    }
}

/// The reported failing stage is the first failing outcome.
pub proof fn lemma_stage_run_of_first(outcomes: Seq<bool>, i: int)
    requires
        0 <= i < outcomes.len(),
        i <= u64::MAX,
        forall|j: int| 0 <= j < i ==> outcomes[j],
        !outcomes[i],
    ensures
        stage_run_of(outcomes) == (StageRun::FailedAt { stage: i as u64 }),
    decreases i,
{
    if i == 0 {
    } else {
        assert(outcomes[0]);
        assert(forall|j: int| 0 <= j < i - 1 ==> outcomes.skip(1)[j]);
        assert(!outcomes.skip(1)[i - 1]);
        lemma_stage_run_of_first(outcomes.skip(1), i - 1);
    }
}

/// `after` is `before` with every stage before the run's stopping point
/// cut back onto `to`, and every other stage untouched.
pub open spec fn stages_cut_back(before: Seq<u64>, after: Seq<u64>, to: u64, run: StageRun) -> bool {
    &&& after.len() == before.len()
    &&& match run {
        StageRun::Completed => forall|j: int|
            0 <= j < before.len() ==> after[j] == min64(before[j], to),
        StageRun::FailedAt { stage } => (forall|j: int|
            0 <= j < stage && j < before.len() ==> after[j] == min64(before[j], to)) && (forall|
            j: int,
        |
            stage <= j < before.len() ==> after[j] == before[j]),
    }
}

impl StageSet {
    /// A sequence of `count` stages, each with progress `progress`.
    pub fn new(count: usize, progress: u64) -> (set: StageSet)
        ensures
            set.checkpoints@.len() == count,
            forall|j: int| 0 <= j < count ==> set.checkpoints@[j] == progress,
    {
        let mut checkpoints: Vec<u64> = Vec::new();
        let mut i: usize = 0;
        while i < count
            invariant
                i <= count,
                checkpoints@.len() == i,
                forall|j: int| 0 <= j < i ==> checkpoints@[j] == progress,
            decreases count - i,
        {
            checkpoints.push(progress);
            i += 1;
        }
        StageSet { checkpoints }
    }
}

/// Drive every stage's unwind down to block `to`, in order, stopping at
/// the first stage that fails. Each stage's unwind is its collaborator's
/// own atomic storage work; `outcomes` holds the outcome each would
/// report. A stage that succeeds has its checkpoint cut back onto `to`
/// (a stage already at or below `to` has nothing to reverse and keeps
/// its progress); the failing stage and everything after it keep theirs,
/// and are never invoked.
pub fn unwind_stages(set: &mut StageSet, to: u64, outcomes: &Vec<bool>) -> (r: StageRun)
    requires
        outcomes@.len() == old(set).checkpoints@.len(),
    ensures
        r == stage_run_of(outcomes@),
        stages_cut_back(old(set).checkpoints@, final(set).checkpoints@, to, r),
        r matches StageRun::FailedAt { stage } ==> stage < outcomes@.len() && !outcomes@[
            stage as int
        ] && (forall|j: int| 0 <= j < stage ==> outcomes@[j]),
{
    let n: usize = set.checkpoints.len();
    let mut i: usize = 0;
    while i < n
        invariant
            n == outcomes@.len(),
            n == old(set).checkpoints@.len(),
            set.checkpoints@.len() == n,
            i <= n,
            forall|j: int| 0 <= j < i ==> outcomes@[j],
            forall|j: int|
                0 <= j < i ==> set.checkpoints@[j] == min64(old(set).checkpoints@[j], to),
            forall|j: int| i <= j < n ==> set.checkpoints@[j] == old(set).checkpoints@[j],
        decreases n - i,
    {
        if !outcomes[i] {
            proof {
                lemma_stage_run_of_first(outcomes@, i as int);
            }
            return StageRun::FailedAt { stage: i as u64 };
        }
        let cp: u64 = set.checkpoints[i];
        if cp > to {
            set.checkpoints.set(i, to);
        }
        i += 1;
    }
    proof {
        lemma_stage_run_of_complete(outcomes@);
    }
    StageRun::Completed
}

} // verus!
