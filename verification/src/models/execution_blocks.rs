//! Execution block rows: one per execution height, written exactly once.
//!
//! The writer uses strict inserts: a duplicate is a hard error, since an
//! execution height must never be re-processed once it has been synced.

use vstd::prelude::*;

use crate::error::StoreError;
use crate::store::Store;
use crate::primitives::Hash256;

verus! {

/// Mathematical form of an execution block row.
#[verifier::ext_equal]
pub ghost struct ExecBlockV {
    pub hash: Seq<u8>,
    pub number: u64,
    pub parent_hash: Seq<u8>,
    pub state_root: Seq<u8>,
    pub transactions_root: Seq<u8>,
    pub receipts_root: Seq<u8>,
}

impl ExecBlockV {
    /// Every hash field is 32 bytes long.
    pub open spec fn wf(self) -> bool {
        self.hash.len() == 32 && self.parent_hash.len() == 32 && self.state_root.len() == 32
            && self.transactions_root.len() == 32 && self.receipts_root.len() == 32
    }
}

/// A stored execution block row.
#[derive(Debug)]
pub struct ExecBlock {
    pub hash: Hash256,
    pub number: u64,
    pub parent_hash: Hash256,
    pub state_root: Hash256,
    pub transactions_root: Hash256,
    pub receipts_root: Hash256,
}

impl View for ExecBlock {
    type V = ExecBlockV;

    open spec fn view(&self) -> ExecBlockV {
        ExecBlockV {
            hash: self.hash@,
            number: self.number,
            parent_hash: self.parent_hash@,
            state_root: self.state_root@,
            transactions_root: self.transactions_root@,
            receipts_root: self.receipts_root@,
        }
    }
}

impl DeepView for ExecBlock {
    type V = ExecBlockV;

    open spec fn deep_view(&self) -> ExecBlockV {
        self@
    }
}

impl Clone for ExecBlock {
    fn clone(&self) -> (r: ExecBlock)
        ensures
            r@ == self@,
    {
        ExecBlock {
            hash: self.hash.clone(),
            number: self.number,
            parent_hash: self.parent_hash.clone(),
            state_root: self.state_root.clone(),
            transactions_root: self.transactions_root.clone(),
            receipts_root: self.receipts_root.clone(),
        }
    }
}

/// There is a block row with hash `h`.
pub open spec fn has_block_hash(s: Seq<ExecBlockV>, h: Seq<u8>) -> bool {
    exists|i: int| 0 <= i < s.len() && s[i].hash == h
}

/// There is a block row with number `n`.
pub open spec fn has_block_number(s: Seq<ExecBlockV>, n: u64) -> bool {
    exists|i: int| 0 <= i < s.len() && s[i].number == n
}

/// The block row with number `n`, meaningful when `has_block_number`
/// holds and numbers are unique.
pub open spec fn block_at_number(s: Seq<ExecBlockV>, n: u64) -> ExecBlockV {
    s[choose|i: int| 0 <= i < s.len() && s[i].number == n]
}

/// No two block rows share a hash, and no two share a number.
pub open spec fn unique_block_keys(s: Seq<ExecBlockV>) -> bool {
    forall|i: int, j: int|
        0 <= i < j < s.len() ==> s[i].hash != s[j].hash && s[i].number != s[j].number
}

impl ExecBlock {
    pub fn number(&self) -> (r: u64)
        ensures
            r == self@.number,
    {
        self.number
    }

    /// Return the highest block from the store, or `NotFound` when the
    /// blocks table is empty.
    pub fn get_highest(store: &Store) -> (r: Result<ExecBlock, StoreError>)
        ensures
            match r {
                Ok(row) => {
                    &&& exists|i: int|
                        0 <= i < store@.blocks.len() && store@.blocks[i] == row@
                    &&& forall|i: int|
                        0 <= i < store@.blocks.len() ==> (#[trigger] store@.blocks[i]).number
                            <= row@.number
                },
                Err(e) => store@.blocks.len() == 0 && e == StoreError::NotFound,
            },
    {
        let n = store.blocks.len();
        if n == 0 {
            return Err(StoreError::NotFound);
        }
        let mut best: usize = 0;
        let mut i: usize = 1;
        while i < n
            invariant
                n == store.blocks@.len(),
                0 <= best < i <= n,
                forall|k: int|
                    0 <= k < i ==> (#[trigger] store@.blocks[k]).number
                        <= store@.blocks[best as int].number,
            decreases n - i,
        {
            if store.blocks[i].number > store.blocks[best].number {
                best = i;
            }
            i += 1;
        }
        let row = store.blocks[best].clone();
        proof {
            assert(store@.blocks[best as int] == row@);
        }
        Ok(row)
    }

    /// Return the unique block at execution height `height`, or
    /// `NotFound` when no row has that number.
    pub fn get(store: &Store, height: u64) -> (r: Result<ExecBlock, StoreError>)
        requires
            store.wf(),
        ensures
            match r {
                Ok(row) => has_block_number(store@.blocks, height) && row@ == block_at_number(
                    store@.blocks,
                    height,
                ) && row@.number == height,
                Err(e) => !has_block_number(store@.blocks, height) && e == StoreError::NotFound,
            },
    {
        let n = store.blocks.len();
        let mut i: usize = 0;
        while i < n
            invariant
                store.wf(),
                n == store.blocks@.len(),
                0 <= i <= n,
                forall|k: int| 0 <= k < i ==> (#[trigger] store@.blocks[k]).number != height,
            decreases n - i,
        {
            if store.blocks[i].number == height {
                let row = store.blocks[i].clone();
                proof {
                    assert(store@.blocks[i as int].number == height);
                    let w = choose|k: int|
                        0 <= k < store@.blocks.len() && store@.blocks[k].number == height;
                    if w < i as int {
                        assert(store@.blocks[w].number != height);
                    } else if w > i as int {
                        assert(store@.blocks[i as int].number != store@.blocks[w].number);
                    }
                    assert(w == i);
                }
                return Ok(row);
            }
            i += 1;
        }
        Err(StoreError::NotFound)
    }
}

/// Representation of an execution block row to be inserted.
#[derive(Debug)]
pub struct NewExecBlock {
    pub hash: Hash256,
    pub number: u64,
    pub parent_hash: Hash256,
    pub state_root: Hash256,
    pub transactions_root: Hash256,
    pub receipts_root: Hash256,
}

impl View for NewExecBlock {
    type V = ExecBlockV;

    open spec fn view(&self) -> ExecBlockV {
        ExecBlockV {
            hash: self.hash@,
            number: self.number,
            parent_hash: self.parent_hash@,
            state_root: self.state_root@,
            transactions_root: self.transactions_root@,
            receipts_root: self.receipts_root@,
        }
    }
}

impl NewExecBlock {
    pub fn new(
        hash: Hash256,
        number: u64,
        parent_hash: Hash256,
        state_root: Hash256,
        transactions_root: Hash256,
        receipts_root: Hash256,
    ) -> (r: NewExecBlock)
        requires
            hash@.len() == 32,
            parent_hash@.len() == 32,
            state_root@.len() == 32,
            transactions_root@.len() == 32,
            receipts_root@.len() == 32,
        ensures
            r@ == (ExecBlockV {
                hash: hash@,
                number,
                parent_hash: parent_hash@,
                state_root: state_root@,
                transactions_root: transactions_root@,
                receipts_root: receipts_root@,
            }),
            r@.wf(),
    {
        NewExecBlock { hash, number, parent_hash, state_root, transactions_root, receipts_root }
    }

    /// Insert the block, skipping the write when a row with the same
    /// hash or number already exists.
    ///
    /// Return the number of affected rows.
    pub fn insert_do_nothing(&self, store: &mut Store) -> (r: usize)
        requires
            old(store).wf(),
            self@.wf(),
        ensures
            final(store).wf(),
            final(store)@.slots == old(store)@.slots,
            final(store)@.transactions == old(store)@.transactions,
            final(store)@.validators == old(store)@.validators,
            (has_block_hash(old(store)@.blocks, self@.hash) || has_block_number(
                old(store)@.blocks,
                self@.number,
            )) ==> final(store)@ == old(store)@ && r == 0,
            !(has_block_hash(old(store)@.blocks, self@.hash) || has_block_number(
                old(store)@.blocks,
                self@.number,
            )) ==> final(store)@.blocks == old(store)@.blocks.push(self@) && r == 1,
    {
        let n = store.blocks.len();
        let mut i: usize = 0;
        while i < n
            invariant
                old(store).wf(),
                n == store.blocks@.len(),
                0 <= i <= n,
                *store == *old(store),
                self@.wf(),
                forall|k: int|
                    0 <= k < i ==> (#[trigger] store@.blocks[k]).hash != self@.hash && store@.blocks[k].number
                        != self@.number,
            decreases n - i,
        {
            if store.blocks[i].hash.matches(&self.hash) || store.blocks[i].number == self.number {
                proof {
                    assert(store@.blocks[i as int].hash == self@.hash || store@.blocks[i as int].number
                        == self@.number);
                    assert(has_block_hash(store@.blocks, self@.hash) || has_block_number(
                        store@.blocks,
                        self@.number,
                    ));
                    assert(store@ == old(store)@);
                }
                return 0;
            }
            i += 1;
        }
        let row = ExecBlock {
            hash: self.hash.clone(),
            number: self.number,
            parent_hash: self.parent_hash.clone(),
            state_root: self.state_root.clone(),
            transactions_root: self.transactions_root.clone(),
            receipts_root: self.receipts_root.clone(),
        };
        proof {
            assert(!has_block_hash(store@.blocks, self@.hash));
            assert(!has_block_number(store@.blocks, self@.number));
            assert(row@ == self@);
        }
        store.blocks.push(row);
        proof {
            assert(store@.blocks =~= old(store)@.blocks.push(self@));
            assert forall|i: int, j: int|
                0 <= i < j < store@.blocks.len() implies store@.blocks[i].hash
                != store@.blocks[j].hash && store@.blocks[i].number
                != store@.blocks[j].number by {
                if j < store@.blocks.len() - 1 {
                    assert(old(store).wf());
                } else {
                    assert(store@.blocks[j] == self@);
                }
            }
        }
        1
    }

    /// Insert a new block, failing with `DuplicateKey` when a row with
    /// the same hash or number already exists.
    pub fn insert(&self, store: &mut Store) -> (r: Result<usize, StoreError>)
        requires
            old(store).wf(),
            self@.wf(),
        ensures
            final(store).wf(),
            final(store)@.slots == old(store)@.slots,
            final(store)@.transactions == old(store)@.transactions,
            final(store)@.validators == old(store)@.validators,
            match r {
                Ok(n) => {
                    &&& !has_block_hash(old(store)@.blocks, self@.hash)
                    &&& !has_block_number(old(store)@.blocks, self@.number)
                    &&& final(store)@.blocks == old(store)@.blocks.push(self@)
                    &&& n == 1
                },
                Err(e) => {
                    &&& (has_block_hash(old(store)@.blocks, self@.hash) || has_block_number(
                        old(store)@.blocks,
                        self@.number,
                    ))
                    &&& final(store)@ == old(store)@
                    &&& e == StoreError::DuplicateKey
                },
            },
    {
        let affected = self.insert_do_nothing(store);
        if affected == 0 {
            Err(StoreError::DuplicateKey)
        } else {
            Ok(affected)
        }
    }
}

} // verus!
