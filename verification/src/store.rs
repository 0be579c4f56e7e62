//! The relational store, modeled as four in-memory tables.
//!
//! The store exposes exactly the conflict-resolution primitives the
//! indexer relies on: conflict-skip inserts for the append-only slots
//! table, strict inserts for execution blocks and transactions, and
//! merge-upserts keyed on validator index.  All consistency guarantees
//! of the indexer rest on these semantics, stated here as contracts.

use vstd::prelude::*;

use crate::models::execution_blocks::{unique_block_keys, ExecBlock, ExecBlockV};
use crate::models::slots::{unique_slot_heights, Slot, SlotV};
use crate::models::transactions::{unique_transaction_hashes, Transaction, TransactionV};
use crate::models::validators::{unique_validator_indexes, Validator, ValidatorV};

verus! {

/// Mathematical form of the whole store.
#[verifier::ext_equal]
pub ghost struct StoreV {
    pub slots: Seq<SlotV>,
    pub blocks: Seq<ExecBlockV>,
    pub transactions: Seq<TransactionV>,
    pub validators: Seq<ValidatorV>,
}

impl StoreV {
    /// Key uniqueness of every table, and well-formed rows throughout.
    pub open spec fn wf(self) -> bool {
        &&& unique_slot_heights(self.slots)
        &&& unique_block_keys(self.blocks)
        &&& unique_transaction_hashes(self.transactions)
        &&& unique_validator_indexes(self.validators)
        &&& forall|i: int| 0 <= i < self.slots.len() ==> (#[trigger] self.slots[i]).wf()
        &&& forall|i: int| 0 <= i < self.blocks.len() ==> (#[trigger] self.blocks[i]).wf()
        &&& forall|i: int|
            0 <= i < self.transactions.len() ==> (#[trigger] self.transactions[i]).wf()
        &&& forall|i: int| 0 <= i < self.validators.len() ==> (#[trigger] self.validators[i]).wf()
    }
}

/// The four tables of the index.
pub struct Store {
    pub slots: Vec<Slot>,
    pub blocks: Vec<ExecBlock>,
    pub transactions: Vec<Transaction>,
    pub validators: Vec<Validator>,
}

impl View for Store {
    type V = StoreV;

    open spec fn view(&self) -> StoreV {
        StoreV {
            slots: self.slots.deep_view(),
            blocks: self.blocks.deep_view(),
            transactions: self.transactions.deep_view(),
            validators: self.validators.deep_view(),
        }
    }
}

impl Store {
    pub open spec fn wf(&self) -> bool {
        self@.wf()
    }

    /// An empty store.
    pub fn new() -> (r: Store)
        ensures
            r@.slots.len() == 0,
            r@.blocks.len() == 0,
            r@.transactions.len() == 0,
            r@.validators.len() == 0,
            r.wf(),
    {
        let r = Store { slots: Vec::new(), blocks: Vec::new(), transactions: Vec::new(), validators: Vec::new() };
        proof {
            assert(r@.slots.len() == 0);
            assert(r@.blocks.len() == 0);
            assert(r@.transactions.len() == 0);
            assert(r@.validators.len() == 0);
        }
        r
    }
}

} // verus!
