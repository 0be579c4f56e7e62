//! Slot rows: one per consensus height ever observed.
//!
//! A slot's execution fields are present exactly when the consensus block
//! at that height carried a non-empty execution payload.  Slot rows are
//! immutable once written: the writer uses conflict-skip semantics, so a
//! later attempt at the same height never overwrites the first.

use vstd::prelude::*;

use crate::error::StoreError;
use crate::store::Store;
use crate::primitives::{clone_opt_hash256, Hash256};

verus! {

/// Mathematical form of a slot row.
#[verifier::ext_equal]
pub ghost struct SlotV {
    pub height: u64,
    pub validators_count: Option<u64>,
    pub block_hash: Option<Seq<u8>>,
    pub block_number: Option<u64>,
}

impl SlotV {
    /// A present execution block hash is 32 bytes long.
    pub open spec fn wf(self) -> bool {
        match self.block_hash {
            Some(h) => h.len() == 32,
            None => true,
        }
    }
}

/// A stored slot row.
#[derive(Debug)]
pub struct Slot {
    pub height: u64,
    pub validators_count: Option<u64>,
    pub block_hash: Option<Hash256>,
    pub block_number: Option<u64>,
}

impl View for Slot {
    type V = SlotV;

    open spec fn view(&self) -> SlotV {
        SlotV {
            height: self.height,
            validators_count: self.validators_count,
            block_hash: self.block_hash.deep_view(),
            block_number: self.block_number,
        }
    }
}

impl DeepView for Slot {
    type V = SlotV;

    open spec fn deep_view(&self) -> SlotV {
        self@
    }
}

impl Clone for Slot {
    fn clone(&self) -> (r: Slot)
        ensures
            r@ == self@,
    {
        Slot {
            height: self.height,
            validators_count: self.validators_count,
            block_hash: clone_opt_hash256(&self.block_hash),
            block_number: self.block_number,
        }
    }
}

/// There is a slot row at height `h`.
pub open spec fn has_slot(s: Seq<SlotV>, h: u64) -> bool {
    exists|i: int| 0 <= i < s.len() && s[i].height == h
}

/// The slot row at height `h`, meaningful when `has_slot` holds and
/// heights are unique.
pub open spec fn slot_at(s: Seq<SlotV>, h: u64) -> SlotV {
    s[choose|i: int| 0 <= i < s.len() && s[i].height == h]
}

/// No two slot rows share a height.
pub open spec fn unique_slot_heights(s: Seq<SlotV>) -> bool {
    forall|i: int, j: int| 0 <= i < j < s.len() ==> s[i].height != s[j].height
}

impl Slot {
    /// Return the height of the slot
    pub fn height(&self) -> (r: u64)
        ensures
            r == self@.height,
    {
        self.height
    }

    /// Return the validator count of the slot
    pub fn validators_count(&self) -> (r: Option<u64>)
        ensures
            r == self@.validators_count,
    {
        self.validators_count
    }

    /// Return the hash of the slot's execution block
    pub fn block_hash(&self) -> (r: &Option<Hash256>)
        ensures
            r.deep_view() == self@.block_hash,
    {
        &self.block_hash
    }

    /// Return the number of the slot's execution block
    pub fn block_number(&self) -> (r: Option<u64>)
        ensures
            r == self@.block_number,
    {
        self.block_number
    }

    /// Return the highest slot from the store, or `NotFound` when the
    /// slots table is empty.
    pub fn get_highest(store: &Store) -> (r: Result<Slot, StoreError>)
        ensures
            match r {
                Ok(row) => {
                    &&& exists|i: int|
                        0 <= i < store@.slots.len() && store@.slots[i] == row@
                    &&& forall|i: int|
                        0 <= i < store@.slots.len() ==> (#[trigger] store@.slots[i]).height
                            <= row@.height
                },
                Err(e) => store@.slots.len() == 0 && e == StoreError::NotFound,
            },
    {
        let n = store.slots.len();
        if n == 0 {
            return Err(StoreError::NotFound);
        }
        let mut best: usize = 0;
        let mut i: usize = 1;
        while i < n
            invariant
                n == store.slots@.len(),
                0 <= best < i <= n,
                forall|k: int|
                    0 <= k < i ==> (#[trigger] store@.slots[k]).height
                        <= store@.slots[best as int].height,
            decreases n - i,
        {
            if store.slots[i].height > store.slots[best].height {
                best = i;
            }
            i += 1;
        }
        let row = store.slots[best].clone();
        proof {
            assert(store@.slots[best as int] == row@);
        }
        Ok(row)
    }

    /// Return the unique slot at `height`, or `NotFound` when no row has
    /// that height.
    pub fn get(store: &Store, height: u64) -> (r: Result<Slot, StoreError>)
        requires
            store.wf(),
        ensures
            match r {
                Ok(row) => has_slot(store@.slots, height) && row@ == slot_at(store@.slots, height)
                    && row@.height == height,
                Err(e) => !has_slot(store@.slots, height) && e == StoreError::NotFound,
            },
    {
        let n = store.slots.len();
        let mut i: usize = 0;
        while i < n
            invariant
                store.wf(),
                n == store.slots@.len(),
                0 <= i <= n,
                forall|k: int| 0 <= k < i ==> (#[trigger] store@.slots[k]).height != height,
            decreases n - i,
        {
            if store.slots[i].height == height {
                let row = store.slots[i].clone();
                proof {
                    assert(store@.slots[i as int].height == height);
                    let w = choose|k: int|
                        0 <= k < store@.slots.len() && store@.slots[k].height == height;
                    if w < i as int {
                        assert(store@.slots[w].height != height);
                    } else if w > i as int {
                        assert(store@.slots[i as int].height != store@.slots[w].height);
                    }
                    assert(w == i);
                }
                return Ok(row);
            }
            i += 1;
        }
        Err(StoreError::NotFound)
    }
}

/// Mathematical form of an insertable slot.
#[verifier::ext_equal]
pub ghost struct NewSlotV {
    pub height: u64,
    pub block_hash: Option<Seq<u8>>,
    pub block_number: Option<u64>,
}

/// The stored row an insertable slot produces: the validator count is
/// not supplied by the writer and starts out absent.
pub open spec fn slot_of_new(n: NewSlotV) -> SlotV {
    SlotV {
        height: n.height,
        validators_count: None,
        block_hash: n.block_hash,
        block_number: n.block_number,
    }
}

/// Representation of a slot row to be inserted.
#[derive(Debug)]
pub struct NewSlot {
    pub height: u64,
    pub block_hash: Option<Hash256>,
    pub block_number: Option<u64>,
}

impl View for NewSlot {
    type V = NewSlotV;

    open spec fn view(&self) -> NewSlotV {
        NewSlotV {
            height: self.height,
            block_hash: self.block_hash.deep_view(),
            block_number: self.block_number,
        }
    }
}

impl NewSlot {
    /// A present execution block hash is 32 bytes long.
    pub open spec fn wf(&self) -> bool {
        match self@.block_hash {
            Some(h) => h.len() == 32,
            None => true,
        }
    }

    /// Return a new insertable slot
    pub fn new(height: u64, block_hash: Option<Hash256>, block_number: Option<u64>) -> (r: NewSlot)
        requires
            match block_hash {
                Some(h) => h@.len() == 32,
                None => true,
            },
        ensures
            r@ == (NewSlotV {
                height,
                block_hash: block_hash.deep_view(),
                block_number,
            }),
            r.wf(),
    {
        NewSlot { height, block_hash, block_number }
    }

    /// Insert the slot, skipping the write when a row at the same height
    /// already exists (first write wins; never an overwrite).
    ///
    /// Return the number of affected rows.
    pub fn insert_do_nothing(&self, store: &mut Store) -> (r: usize)
        requires
            old(store).wf(),
            self.wf(),
        ensures
            final(store).wf(),
            final(store)@.blocks == old(store)@.blocks,
            final(store)@.transactions == old(store)@.transactions,
            final(store)@.validators == old(store)@.validators,
            has_slot(old(store)@.slots, self@.height) ==> final(store)@ == old(store)@ && r == 0,
            !has_slot(old(store)@.slots, self@.height) ==> final(store)@.slots == old(
                store,
            )@.slots.push(slot_of_new(self@)) && r == 1,
    {
        let n = store.slots.len();
        let mut i: usize = 0;
        while i < n
            invariant
                old(store).wf(),
                self.wf(),
                n == store.slots@.len(),
                0 <= i <= n,
                *store == *old(store),
                forall|k: int| 0 <= k < i ==> (#[trigger] store@.slots[k]).height != self@.height,
            decreases n - i,
        {
            if store.slots[i].height == self.height {
                proof {
                    assert(store@.slots[i as int].height == self@.height);
                    assert(has_slot(store@.slots, self@.height));
                    assert(store@ == old(store)@);
                }
                return 0;
            }
            i += 1;
        }
        let row = Slot {
            height: self.height,
            validators_count: None,
            block_hash: clone_opt_hash256(&self.block_hash),
            block_number: self.block_number,
        };
        proof {
            assert(!has_slot(store@.slots, self@.height));
            assert(row@ == slot_of_new(self@));
        }
        store.slots.push(row);
        proof {
            assert(store@.slots =~= old(store)@.slots.push(slot_of_new(self@)));
            assert forall|i: int, j: int|
                0 <= i < j < store@.slots.len() implies store@.slots[i].height
                != store@.slots[j].height by {
                if j < store@.slots.len() - 1 {
                    assert(old(store).wf());
                } else {
                    assert(store@.slots[j] == slot_of_new(self@));
                }
            }
        }
        1
    }

    /// Insert a new slot, failing with `DuplicateKey` when a row at the
    /// same height already exists.
    pub fn insert(&self, store: &mut Store) -> (r: Result<usize, StoreError>)
        requires
            old(store).wf(),
            self.wf(),
        ensures
            final(store).wf(),
            final(store)@.blocks == old(store)@.blocks,
            final(store)@.transactions == old(store)@.transactions,
            final(store)@.validators == old(store)@.validators,
            match r {
                Ok(n) => !has_slot(old(store)@.slots, self@.height) && final(store)@.slots == old(
                    store,
                )@.slots.push(slot_of_new(self@)) && n == 1,
                Err(e) => has_slot(old(store)@.slots, self@.height) && final(store)@ == old(
                    store,
                )@ && e == StoreError::DuplicateKey,
            },
    {
        let affected = self.insert_do_nothing(store);
        if affected == 0 {
            Err(StoreError::DuplicateKey)
        } else {
            Ok(affected)
        }
    }
}

} // verus!
