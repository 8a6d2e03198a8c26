//! Error kinds surfaced by the unwind subsystem.

use vstd::prelude::*;

verus! {

/// Everything that can go wrong during an unwind.
///
/// Every error is surfaced to the immediate caller; none is swallowed.
#[derive(Clone, Copy, Debug, PartialEq, Eq, Structural)]
pub enum UnwindError {
    /// The target hash is absent from the mutable store's index.
    UnknownBlock,
    /// The target sits at or after the current head: nothing to unwind.
    InvalidRange,
    /// The operation would unwind down to the genesis block.
    GenesisUnwind,
    /// A stage reported a failure while reversing its derived data;
    /// carries the position of the failing stage.
    StageFailure { stage: u64 },
    /// The direct-path storage transaction failed; nothing was committed.
    TransactionError,
    /// The tier migration failed before the unwind could proceed.
    MigrationError,
}

} // verus!
