//! Unwinding a block range of a two-tier chain store.
//!
//! A node keeps its chain data in two tiers: a mutable transactional store
//! holding recent, possibly-reorganizable blocks, and an immutable
//! append-only store holding older, finalized blocks. Rolling the chain
//! back to an earlier block must stay consistent across both tiers and
//! across the ordered set of processing stages that derive data from the
//! chain.
//!
//! The crate models the observable state of the two tiers and verifies the
//! whole unwind procedure over it: resolving a caller's target into a
//! validated inclusive block range, deciding between the staged-pipeline
//! path and the direct transactional path, migrating data into the
//! immutable tier before a pipeline unwind so its boundary never retreats,
//! and clamping the finalized-block pointer so it never names a removed
//! block.

pub mod errors;
pub mod laws;
pub mod orchestrator;
pub mod range;
pub mod resolver;
pub mod stages;
pub mod state;
pub mod taiko;
