//! The consensus-layer adapter: maps one slot to one stored slot row.
//!
//! A missed slot (the chain itself produced no block there) is not an
//! error; a pre-merge block simply has no execution payload, and the row
//! records absent execution fields.  Rows are written with conflict-skip
//! semantics, so the first successful write for a height wins and later
//! attempts change nothing.

use vstd::prelude::*;

use crate::chain::{ConsensusChain, ConsensusChainV};
use crate::error::Error;
use crate::models::slots::{has_slot, slot_of_new, NewSlot, NewSlotV, Slot, SlotV};
use crate::store::{Store, StoreV};
use crate::sync::syncer::DbSyncer;

verus! {

/// The greatest height among the slot rows (zero for an empty table).
pub open spec fn max_slot_height(s: Seq<SlotV>) -> u64
    decreases s.len(),
{
    if s.len() == 0 {
        0
    } else {
        let m = max_slot_height(s.drop_last());
        if s.last().height > m {
            s.last().height
        } else {
            m
        }
    }
}

/// In a non-empty table the greatest height is attained, and bounds every
/// row's height.
pub proof fn lemma_max_slot_height(s: Seq<SlotV>)
    requires
        s.len() > 0,
    ensures
        has_slot(s, max_slot_height(s)),
        forall|i: int| 0 <= i < s.len() ==> (#[trigger] s[i]).height <= max_slot_height(s),
    decreases s.len(),
{
    let t = s.drop_last();
    if s.len() == 1 {
        assert(s[0].height == max_slot_height(s));
    } else {
        lemma_max_slot_height(t);
        let w = choose|i: int| 0 <= i < t.len() && t[i].height == max_slot_height(t);
        assert(s[w] == t[w]);
        if s.last().height > max_slot_height(t) {
            assert(s[s.len() - 1].height == max_slot_height(s));
        } else {
            assert(s[w].height == max_slot_height(s));
        }
        assert forall|i: int| 0 <= i < s.len() implies (#[trigger] s[i]).height <= max_slot_height(
            s,
        ) by {
            if i < s.len() - 1 {
                assert(t[i] == s[i]);
            }
        }
    }
}

/// The slot row a consensus block at `height` produces.
pub open spec fn slot_row_of_block(chain: ConsensusChainV, height: u64) -> NewSlotV
    recommends
        chain.block_at(height) is Some,
{
    let b = chain.block_at(height).unwrap();
    NewSlotV {
        height,
        block_hash: match b.execution_payload {
            Some(p) => Some(p.block_hash),
            None => None,
        },
        block_number: match b.execution_payload {
            Some(p) => Some(p.block_number),
            None => None,
        },
    }
}

/// The store after the consensus adapter processes one height: a missed
/// slot writes nothing; otherwise the slot row is written unless a row at
/// that height already exists.
pub open spec fn consensus_step(chain: ConsensusChainV, store: StoreV, height: u64) -> StoreV {
    match chain.block_at(height) {
        None => store,
        Some(b) => {
            if has_slot(store.slots, height) {
                store
            } else {
                StoreV { slots: store.slots.push(slot_of_new(slot_row_of_block(chain, height))), ..store }
            }
        },
    }
}

/// A consensus height with no block is processed successfully and writes
/// nothing: the store is unchanged, and in particular no slot row (and no
/// execution fields) appears for that height.
pub proof fn lemma_missed_slot_writes_nothing(chain: ConsensusChainV, store: StoreV, height: u64)
    requires
        chain.block_at(height) is None,
    ensures
        consensus_step(chain, store, height) == store,
        !has_slot(store.slots, height) ==> !has_slot(
            consensus_step(chain, store, height).slots,
            height,
        ),
{
}

/// The highest consensus height present in the store's slots table.
pub open spec fn consensus_db_height(store: StoreV) -> Option<u64> {
    if store.slots.len() == 0 {
        None
    } else {
        Some(max_slot_height(store.slots))
    }
}

/// The consensus-layer syncer: the store it writes and the chain it
/// reads.
pub struct ConsensusSyncer<'a> {
    pub store: Store,
    pub client: &'a ConsensusChain,
}

impl<'a> ConsensusSyncer<'a> {
    pub fn new(store: Store, client: &'a ConsensusChain) -> (r: ConsensusSyncer<'a>)
        ensures
            r.store == store,
            r.client == client,
    {
        ConsensusSyncer { store, client }
    }

    /// Process one consensus height: fetch the block at `height`, treat a
    /// missed slot as success with nothing written, and otherwise write
    /// the slot row (with its execution fields exactly when the block
    /// carries a payload) under conflict-skip semantics.
    pub fn process_height(&mut self, height: u64) -> (r: Result<(), Error>)
        requires
            old(self).inv(),
        ensures
            final(self).inv(),
            final(self).client == old(self).client,
            final(self).store@ == consensus_step(old(self).client@, old(self).store@, height),
            r is Ok,
    {
        let client = self.client;
        let block = match client.get_block(height) {
            Some(b) => b,
            None => {
                return Ok(());
            },
        };
        let (block_hash, block_number): (Option<crate::primitives::Hash256>, Option<u64>) = match &block
            .execution_payload {
            Some(p) => (Some(p.block_hash.clone()), Some(p.block_number)),
            None => (None, None),
        };
        proof {
            assert(old(self).client@.wf());
        }
        let new_slot = NewSlot::new(height, block_hash, block_number);
        proof {
            assert(new_slot@ == slot_row_of_block(old(self).client@, height));
        }
        let _ = new_slot.insert_do_nothing(&mut self.store);
        Ok(())
    }
}

impl<'a> DbSyncer for ConsensusSyncer<'a> {
    type ChainModel = ConsensusChainV;

    open spec fn chain(&self) -> ConsensusChainV {
        self.client@
    }

    open spec fn store_model(&self) -> StoreV {
        self.store@
    }

    open spec fn inv(&self) -> bool {
        self.store.wf() && self.client@.wf()
    }

    open spec fn step(chain: ConsensusChainV, store: StoreV, height: u64) -> StoreV {
        consensus_step(chain, store, height)
    }

    open spec fn step_ok(chain: ConsensusChainV, store: StoreV, height: u64) -> bool {
        true
    }

    open spec fn db_height_of(store: StoreV) -> Option<u64> {
        consensus_db_height(store)
    }

    fn get_db_height(&self) -> (r: Result<u64, Error>) {
        match Slot::get_highest(&self.store) {
            Ok(highest_slot) => {
                proof {
                    lemma_max_slot_height(self.store@.slots);
                    let m = max_slot_height(self.store@.slots);
                    let w = choose|i: int|
                        0 <= i < self.store@.slots.len() && self.store@.slots[i].height == m;
                    assert(self.store@.slots[w].height <= highest_slot@.height);
                    let v = choose|i: int|
                        0 <= i < self.store@.slots.len() && self.store@.slots[i] == highest_slot@;
                    assert(self.store@.slots[v].height <= m);
                }
                Ok(highest_slot.height())
            },
            Err(e) => Err(Error::Store(e)),
        }
    }

    fn create_new_entry(&mut self, height: u64) -> (r: Result<(), Error>) {
        self.process_height(height)
    }
}

} // verus!
