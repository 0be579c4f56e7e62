//! Error taxonomy of the indexer.
//!
//! Startup-fatal configuration errors abort before any sync task starts;
//! per-height errors are reported by `create_new_entry` and never abort a
//! catch-up range.

use vstd::prelude::*;

verus! {

/// Errors raised while synchronizing one height.
#[derive(Debug, PartialEq, Eq, Structural)]
pub enum SyncError {
    /// Block not found at height
    NothingAtHeight(u64),
    /// The indexed block was pending
    PendingBlock(u64),
    /// The client did not return any validators
    NoValidators,
}

/// Errors raised by the store's write and read primitives.
#[derive(Debug, PartialEq, Eq, Structural)]
pub enum StoreError {
    /// A strict insert hit a row that already carries the same unique key.
    DuplicateKey,
    /// A lookup found no row.
    NotFound,
}

/// Top-level error of the indexer.
#[derive(Debug)]
pub enum Error {
    /// Chain preset not supported; carries the rejected preset name.
    InvalidChainPreset(String),
    /// Config name is missing from chain config
    MissingChainName,
    /// Config name invalid
    InvalidChainName,
    /// The bounded-mode ceiling lies before the chain's merge point.
    PreMergeFreezeSlot,
    Sync(SyncError),
    Store(StoreError),
}

} // verus!
