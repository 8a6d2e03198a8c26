//! End-to-end scenarios of the unwind decision procedure.

use stage_unwind::errors::UnwindError;
use stage_unwind::orchestrator::StageRun;
use stage_unwind::orchestrator::UnwindPath;
use stage_unwind::orchestrator::choose_path;
use stage_unwind::orchestrator::direct_unwind;
use stage_unwind::orchestrator::migrate_to_immutable;
use stage_unwind::orchestrator::pipeline_unwind;
use stage_unwind::orchestrator::unwind;
use stage_unwind::range::BlockHash;
use stage_unwind::range::BlockHashOrNumber;
use stage_unwind::range::BlockRange;
use stage_unwind::range::UnwindTarget;
use stage_unwind::state::ChainState;

fn hash(seed: u64) -> BlockHash {
    BlockHash { w0: seed, w1: seed ^ 0xff, w2: 0, w3: seed.wrapping_mul(31) }
}

#[test]
fn direct_path_to_block() {
    // head=100, empty immutable tier, target block 90: the whole range
    // lies in the mutable tier, so one transaction removes [91, 100].
    let mut s = ChainState::new(100, None, None);
    let r = unwind(
        &mut s,
        UnwindTarget::ToBlock(BlockHashOrNumber::Number(90)),
        true,
        StageRun::Completed,
        true,
    );
    assert_eq!(r, Ok(10));
    assert_eq!(s.head, 90);
    assert_eq!(s.tier_boundary, None);
}

#[test]
fn pipeline_path_overlapping_watermark() {
    // head=100, watermark=95, target block 90: the range [91, 100]
    // starts at or below the watermark, so migration runs first and the
    // staged pipeline does the unwind.
    let mut s = ChainState::new(100, Some(95), None);
    let range = BlockRange::new(91, 100);
    assert_eq!(choose_path(&s, &range), UnwindPath::Pipeline);

    let r = unwind(
        &mut s,
        UnwindTarget::ToBlock(BlockHashOrNumber::Number(90)),
        true,
        StageRun::Completed,
        true,
    );
    assert_eq!(r, Ok(10));
    assert_eq!(s.head, 90);
    // Migration ran before the unwind: the boundary covers the old head.
    assert_eq!(s.tier_boundary, Some(100));
}

#[test]
fn num_blocks_from_head() {
    // head=50, roll back 10 blocks: range [41, 50], new head 40.
    let mut s = ChainState::new(50, None, None);
    let r = unwind(&mut s, UnwindTarget::NumBlocks(10), true, StageRun::Completed, true);
    assert_eq!(r, Ok(10));
    assert_eq!(s.head, 40);
}

#[test]
fn unknown_hash_mutates_nothing() {
    let mut s = ChainState::new(100, Some(40), Some(90));
    s.insert_hash_entry(hash(7), 95);
    let r = unwind(
        &mut s,
        UnwindTarget::ToBlock(BlockHashOrNumber::Hash(hash(8))),
        true,
        StageRun::Completed,
        true,
    );
    assert_eq!(r, Err(UnwindError::UnknownBlock));
    assert_eq!(s.head, 100);
    assert_eq!(s.tier_boundary, Some(40));
    assert_eq!(s.finalized, Some(90));
    assert_eq!(s.hash_index.len(), 1);
}

#[test]
fn known_hash_resolves_and_is_pruned() {
    let mut s = ChainState::new(100, None, None);
    s.insert_hash_entry(hash(1), 90);
    s.insert_hash_entry(hash(2), 95);
    let r = unwind(
        &mut s,
        UnwindTarget::ToBlock(BlockHashOrNumber::Hash(hash(1))),
        true,
        StageRun::Completed,
        true,
    );
    assert_eq!(r, Ok(10));
    assert_eq!(s.head, 90);
    // Block 95 is gone, and so is its index entry; block 90 stays.
    assert_eq!(s.lookup_block_number(hash(2)), None);
    assert_eq!(s.lookup_block_number(hash(1)), Some(90));
}

#[test]
fn genesis_target_refused() {
    let mut s = ChainState::new(100, None, None);
    let r = unwind(
        &mut s,
        UnwindTarget::ToBlock(BlockHashOrNumber::Number(0)),
        true,
        StageRun::Completed,
        true,
    );
    assert_eq!(r, Err(UnwindError::GenesisUnwind));
    assert_eq!(s.head, 100);
}

#[test]
fn num_blocks_reaching_genesis_refused() {
    let mut s = ChainState::new(50, None, None);
    let r = unwind(&mut s, UnwindTarget::NumBlocks(50), true, StageRun::Completed, true);
    assert_eq!(r, Err(UnwindError::GenesisUnwind));
    let r = unwind(&mut s, UnwindTarget::NumBlocks(1000), true, StageRun::Completed, true);
    assert_eq!(r, Err(UnwindError::GenesisUnwind));
    assert_eq!(s.head, 50);
}

#[test]
fn target_at_or_past_head_refused() {
    let mut s = ChainState::new(100, None, None);
    let r = unwind(
        &mut s,
        UnwindTarget::ToBlock(BlockHashOrNumber::Number(100)),
        true,
        StageRun::Completed,
        true,
    );
    assert_eq!(r, Err(UnwindError::InvalidRange));
    let r = unwind(
        &mut s,
        UnwindTarget::ToBlock(BlockHashOrNumber::Number(250)),
        true,
        StageRun::Completed,
        true,
    );
    assert_eq!(r, Err(UnwindError::InvalidRange));
    assert_eq!(s.head, 100);
}

#[test]
fn finalized_pointer_clamped() {
    // finalized=95 inside the removed range [91, 100]: clamped to 90.
    let mut s = ChainState::new(100, None, Some(95));
    let r = unwind(
        &mut s,
        UnwindTarget::ToBlock(BlockHashOrNumber::Number(90)),
        true,
        StageRun::Completed,
        true,
    );
    assert_eq!(r, Ok(10));
    assert_eq!(s.finalized, Some(90));
}

#[test]
fn finalized_pointer_below_range_untouched() {
    let mut s = ChainState::new(100, None, Some(50));
    let r = unwind(
        &mut s,
        UnwindTarget::ToBlock(BlockHashOrNumber::Number(90)),
        true,
        StageRun::Completed,
        true,
    );
    assert_eq!(r, Ok(10));
    assert_eq!(s.finalized, Some(50));
}

#[test]
fn second_unwind_to_same_target_is_refused() {
    let mut s = ChainState::new(100, None, None);
    let target = UnwindTarget::ToBlock(BlockHashOrNumber::Number(90));
    let first = unwind(&mut s, target, true, StageRun::Completed, true);
    assert_eq!(first, Ok(10));
    let second = unwind(&mut s, target, true, StageRun::Completed, true);
    assert_eq!(second, Err(UnwindError::InvalidRange));
    assert_eq!(s.head, 90);
}

#[test]
fn failed_commit_leaves_state_identical() {
    let mut s = ChainState::new(100, Some(40), Some(95));
    s.insert_hash_entry(hash(3), 99);
    let r = unwind(
        &mut s,
        UnwindTarget::ToBlock(BlockHashOrNumber::Number(90)),
        true,
        StageRun::Completed,
        false,
    );
    assert_eq!(r, Err(UnwindError::TransactionError));
    assert_eq!(s.head, 100);
    assert_eq!(s.tier_boundary, Some(40));
    assert_eq!(s.finalized, Some(95));
    assert_eq!(s.hash_index.len(), 1);
    assert_eq!(s.lookup_block_number(hash(3)), Some(99));
}

#[test]
fn failed_migration_aborts_before_unwind() {
    let mut s = ChainState::new(100, Some(95), Some(93));
    let r = unwind(
        &mut s,
        UnwindTarget::ToBlock(BlockHashOrNumber::Number(90)),
        false,
        StageRun::Completed,
        true,
    );
    assert_eq!(r, Err(UnwindError::MigrationError));
    assert_eq!(s.head, 100);
    assert_eq!(s.tier_boundary, Some(95));
    assert_eq!(s.finalized, Some(93));
}

#[test]
fn failed_stage_surfaces_its_position() {
    let mut s = ChainState::new(100, Some(95), None);
    let r = unwind(
        &mut s,
        UnwindTarget::ToBlock(BlockHashOrNumber::Number(90)),
        true,
        StageRun::FailedAt { stage: 3 },
        true,
    );
    assert_eq!(r, Err(UnwindError::StageFailure { stage: 3 }));
    // The migration had already run; the head never moved.
    assert_eq!(s.tier_boundary, Some(100));
    assert_eq!(s.head, 100);
}

#[test]
fn boundary_never_decreases_across_operations() {
    let mut s = ChainState::new(100, Some(50), None);
    let mut lowest = 50u64;
    let steps: [(UnwindTarget, bool, StageRun, bool); 4] = [
        (UnwindTarget::ToBlock(BlockHashOrNumber::Number(80)), true, StageRun::Completed, true),
        (UnwindTarget::NumBlocks(10), false, StageRun::Completed, true),
        (UnwindTarget::NumBlocks(10), true, StageRun::FailedAt { stage: 1 }, true),
        (UnwindTarget::ToBlock(BlockHashOrNumber::Number(40)), true, StageRun::Completed, true),
    ];
    for (target, copied, stages, commit_ok) in steps {
        let _ = unwind(&mut s, target, copied, stages, commit_ok);
        let b = s.tier_boundary.expect("the boundary was set and may not vanish");
        assert!(b >= lowest, "tier boundary retreated");
        lowest = b;
    }
}

#[test]
fn finalized_never_past_head_after_success() {
    let cases: [(u64, Option<u64>, Option<u64>, UnwindTarget); 3] = [
        (100, None, Some(95), UnwindTarget::ToBlock(BlockHashOrNumber::Number(90))),
        (100, Some(95), Some(100), UnwindTarget::ToBlock(BlockHashOrNumber::Number(50))),
        (50, None, Some(10), UnwindTarget::NumBlocks(10)),
    ];
    for (head, boundary, finalized, target) in cases {
        let mut s = ChainState::new(head, boundary, finalized);
        let r = unwind(&mut s, target, true, StageRun::Completed, true);
        assert!(r.is_ok());
        if let Some(f) = s.finalized {
            assert!(f <= s.head, "finalized pointer dangles past the head");
        }
    }
}

#[test]
fn boundary_edge_between_paths() {
    // A range starting exactly one block above the watermark never
    // touches the boundary block: direct path.
    let s = ChainState::new(100, Some(90), None);
    let range = BlockRange::new(91, 100);
    assert_eq!(choose_path(&s, &range), UnwindPath::Direct);
    // A range starting at the watermark overlaps the immutable tier.
    let range = BlockRange::new(90, 100);
    assert_eq!(choose_path(&s, &range), UnwindPath::Pipeline);
}

#[test]
fn migration_is_idempotent() {
    let mut s = ChainState::new(100, Some(60), None);
    assert!(migrate_to_immutable(&mut s, true).is_ok());
    assert_eq!(s.tier_boundary, Some(100));
    assert!(migrate_to_immutable(&mut s, true).is_ok());
    assert_eq!(s.tier_boundary, Some(100));
    assert_eq!(s.head, 100);
}

#[test]
fn direct_unwind_counts_and_cuts() {
    let mut s = ChainState::new(100, None, Some(98));
    let range = BlockRange::new(91, 100);
    let r = direct_unwind(&mut s, &range, true);
    assert_eq!(r, Ok(10));
    assert_eq!(s.head, 90);
    assert_eq!(s.finalized, Some(90));
}

#[test]
fn pipeline_unwind_reports_new_head() {
    let mut s = ChainState::new(100, Some(95), None);
    let r = pipeline_unwind(&mut s, 90, None, StageRun::Completed);
    assert_eq!(r, Ok(90));
    assert_eq!(s.head, 90);
    assert_eq!(s.tier_boundary, Some(95));
}
