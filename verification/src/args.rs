//! Start-height overrides and the bounded-mode ceiling.

use vstd::prelude::*;

verus! {

/// Sync configuration: explicit start heights for each layer, and the
/// consensus height at which the store will be frozen.
#[derive(Debug, Clone, Copy, PartialEq, Eq, Structural)]
pub struct Args {
    /// Height from where the consensus layer will be synced
    pub from_slot: Option<u64>,
    /// Height from where the execution layer will be synced
    pub from_block: Option<u64>,
    /// Height of the consensus slot at which the database will be frozen
    pub freeze_at: u64,
}

impl Args {
    pub fn new(from_slot: Option<u64>, from_block: Option<u64>, freeze_at: u64) -> (r: Args)
        ensures
            r == (Args { from_slot, from_block, freeze_at }),
    {
        Args { from_slot, from_block, freeze_at }
    }

    pub fn from_slot(&self) -> (r: Option<u64>)
        ensures
            r == self.from_slot,
    {
        self.from_slot
    }

    pub fn from_block(&self) -> (r: Option<u64>)
        ensures
            r == self.from_block,
    {
        self.from_block
    }

    pub fn freeze_at(&self) -> (r: u64)
        ensures
            r == self.freeze_at,
    {
        self.freeze_at
    }
}

} // verus!
