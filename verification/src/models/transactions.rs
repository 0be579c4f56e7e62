//! Transaction rows, created in a batch alongside their owning block.
//!
//! A transaction's status field starts out absent and is populated later,
//! only for transactions that call the deposit contract.

use vstd::prelude::*;

use crate::codec::u256_le_bytes;
use crate::error::StoreError;
use crate::store::Store;
use crate::primitives::{clone_bytes, clone_opt_hash160, Hash160, Hash256, U256};

verus! {

/// Mathematical form of a transaction row.
#[verifier::ext_equal]
pub ghost struct TransactionV {
    pub hash: Seq<u8>,
    pub block_hash: Seq<u8>,
    pub index: u64,
    pub from: Option<Seq<u8>>,
    pub to: Option<Seq<u8>>,
    pub input: Seq<u8>,
    pub value: Seq<u8>,
    pub status: Option<bool>,
}

impl TransactionV {
    /// Hashes are 32 bytes, addresses 20 bytes, and the stored value is
    /// a 32-byte little-endian form.
    pub open spec fn wf(self) -> bool {
        &&& self.hash.len() == 32
        &&& self.block_hash.len() == 32
        &&& match self.from {
            Some(a) => a.len() == 20,
            None => true,
        }
        &&& match self.to {
            Some(a) => a.len() == 20,
            None => true,
        }
        &&& self.value.len() == 32
    }
}

/// A stored transaction row.
#[derive(Debug)]
pub struct Transaction {
    pub hash: Hash256,
    pub block_hash: Hash256,
    pub index: u64,
    pub from: Option<Hash160>,
    pub to: Option<Hash160>,
    pub input: Vec<u8>,
    pub value: Vec<u8>,
    pub status: Option<bool>,
}

impl View for Transaction {
    type V = TransactionV;

    open spec fn view(&self) -> TransactionV {
        TransactionV {
            hash: self.hash@,
            block_hash: self.block_hash@,
            index: self.index,
            from: self.from.deep_view(),
            to: self.to.deep_view(),
            input: self.input@,
            value: self.value@,
            status: self.status,
        }
    }
}

impl DeepView for Transaction {
    type V = TransactionV;

    open spec fn deep_view(&self) -> TransactionV {
        self@
    }
}

impl Clone for Transaction {
    fn clone(&self) -> (r: Transaction)
        ensures
            r@ == self@,
    {
        Transaction {
            hash: self.hash.clone(),
            block_hash: self.block_hash.clone(),
            index: self.index,
            from: clone_opt_hash160(&self.from),
            to: clone_opt_hash160(&self.to),
            input: clone_bytes(&self.input),
            value: clone_bytes(&self.value),
            status: self.status,
        }
    }
}

/// There is a transaction row with hash `h`.
pub open spec fn has_transaction(s: Seq<TransactionV>, h: Seq<u8>) -> bool {
    exists|i: int| 0 <= i < s.len() && s[i].hash == h
}

/// The transaction row with hash `h`, meaningful when `has_transaction`
/// holds and hashes are unique.
pub open spec fn transaction_at(s: Seq<TransactionV>, h: Seq<u8>) -> TransactionV {
    s[choose|i: int| 0 <= i < s.len() && s[i].hash == h]
}

/// No two transaction rows share a hash.
pub open spec fn unique_transaction_hashes(s: Seq<TransactionV>) -> bool {
    forall|i: int, j: int| 0 <= i < j < s.len() ==> s[i].hash != s[j].hash
}

/// A transaction row with its status replaced.
pub open spec fn with_status(t: TransactionV, status: bool) -> TransactionV {
    TransactionV { status: Some(status), ..t }
}

/// The transactions table after setting the status of the row with hash
/// `h`; rows with other hashes are untouched.
pub open spec fn set_status_spec(s: Seq<TransactionV>, h: Seq<u8>, status: bool) -> Seq<
    TransactionV,
> {
    s.map_values(
        |t: TransactionV|
            if t.hash == h {
                with_status(t, status)
            } else {
                t
            },
    )
}

impl Transaction {
    /// Return the address of the transaction recipient
    pub fn to(&self) -> (r: Option<Hash160>)
        ensures
            r.deep_view() == self@.to,
    {
        clone_opt_hash160(&self.to)
    }

    /// Return the transaction input
    pub fn input(&self) -> (r: Vec<u8>)
        ensures
            r@ == self@.input,
    {
        clone_bytes(&self.input)
    }

    /// Return the transaction's success status, absent until the linking
    /// step has confirmed the transaction on chain.
    pub fn status(&self) -> (r: Option<bool>)
        ensures
            r == self@.status,
    {
        self.status
    }

    /// Return the unique transaction with hash `hash`, or `NotFound`.
    pub fn get(store: &Store, hash: &Hash256) -> (r: Result<Transaction, StoreError>)
        requires
            store.wf(),
        ensures
            match r {
                Ok(row) => has_transaction(store@.transactions, hash@) && row@ == transaction_at(
                    store@.transactions,
                    hash@,
                ) && row@.hash == hash@,
                Err(e) => !has_transaction(store@.transactions, hash@) && e
                    == StoreError::NotFound,
            },
    {
        let n = store.transactions.len();
        let mut i: usize = 0;
        while i < n
            invariant
                store.wf(),
                n == store.transactions@.len(),
                0 <= i <= n,
                forall|k: int| 0 <= k < i ==> (#[trigger] store@.transactions[k]).hash != hash@,
            decreases n - i,
        {
            if store.transactions[i].hash.matches(hash) {
                let row = store.transactions[i].clone();
                proof {
                    assert(store@.transactions[i as int].hash == hash@);
                    let w = choose|k: int|
                        0 <= k < store@.transactions.len() && store@.transactions[k].hash == hash@;
                    if w < i as int {
                        assert(store@.transactions[w].hash != hash@);
                    } else if w > i as int {
                        assert(store@.transactions[i as int].hash != store@.transactions[w].hash);
                    }
                    assert(w == i);
                }
                return Ok(row);
            }
            i += 1;
        }
        Err(StoreError::NotFound)
    }
}

/// Mathematical form of an insertable transaction.
#[verifier::ext_equal]
pub ghost struct NewTransactionV {
    pub hash: Seq<u8>,
    pub block_hash: Seq<u8>,
    pub index: u64,
    pub from: Option<Seq<u8>>,
    pub to: Option<Seq<u8>>,
    pub input: Seq<u8>,
    pub value: Seq<u8>,
}

/// The stored row an insertable transaction produces: the status starts
/// out absent.
pub open spec fn transaction_of_new(n: NewTransactionV) -> TransactionV {
    TransactionV {
        hash: n.hash,
        block_hash: n.block_hash,
        index: n.index,
        from: n.from,
        to: n.to,
        input: n.input,
        value: n.value,
        status: None,
    }
}

/// Representation of a transaction row to be inserted.
#[derive(Debug)]
pub struct NewTransaction {
    pub hash: Hash256,
    pub block_hash: Hash256,
    pub index: u64,
    pub from: Option<Hash160>,
    pub to: Option<Hash160>,
    pub input: Vec<u8>,
    pub value: Vec<u8>,
}

impl View for NewTransaction {
    type V = NewTransactionV;

    open spec fn view(&self) -> NewTransactionV {
        NewTransactionV {
            hash: self.hash@,
            block_hash: self.block_hash@,
            index: self.index,
            from: self.from.deep_view(),
            to: self.to.deep_view(),
            input: self.input@,
            value: self.value@,
        }
    }
}

impl DeepView for NewTransaction {
    type V = NewTransactionV;

    open spec fn deep_view(&self) -> NewTransactionV {
        self@
    }
}

impl NewTransaction {
    pub open spec fn wf(&self) -> bool {
        transaction_of_new(self@).wf()
    }

    /// Return a new insertable transaction.  The 256-bit value is stored
    /// in its 32-byte little-endian form.
    pub fn new(
        hash: Hash256,
        block_hash: Hash256,
        index: u64,
        from: Option<Hash160>,
        to: Option<Hash160>,
        input: Vec<u8>,
        value: U256,
    ) -> (r: NewTransaction)
        requires
            hash@.len() == 32,
            block_hash@.len() == 32,
            match from {
                Some(a) => a@.len() == 20,
                None => true,
            },
            match to {
                Some(a) => a@.len() == 20,
                None => true,
            },
        ensures
            r@ == (NewTransactionV {
                hash: hash@,
                block_hash: block_hash@,
                index,
                from: from.deep_view(),
                to: to.deep_view(),
                input: input@,
                value: u256_le_bytes(value),
            }),
            r.wf(),
    {
        let value_bytes = crate::codec::u256_to_le_bytes(&value);
        NewTransaction { hash, block_hash, index, from, to, input, value: value_bytes }
    }

    /// Insert a new transaction, failing with `DuplicateKey` when a row
    /// with the same hash already exists.
    pub fn insert(&self, store: &mut Store) -> (r: Result<usize, StoreError>)
        requires
            old(store).wf(),
            self.wf(),
        ensures
            final(store).wf(),
            final(store)@.slots == old(store)@.slots,
            final(store)@.blocks == old(store)@.blocks,
            final(store)@.validators == old(store)@.validators,
            match r {
                Ok(n) => !has_transaction(old(store)@.transactions, self@.hash)
                    && final(store)@.transactions == old(store)@.transactions.push(
                    transaction_of_new(self@),
                ) && n == 1,
                Err(e) => has_transaction(old(store)@.transactions, self@.hash) && final(store)@
                    == old(store)@ && e == StoreError::DuplicateKey,
            },
    {
        let n = store.transactions.len();
        let mut i: usize = 0;
        while i < n
            invariant
                old(store).wf(),
                self.wf(),
                n == store.transactions@.len(),
                0 <= i <= n,
                *store == *old(store),
                forall|k: int| 0 <= k < i ==> (#[trigger] store@.transactions[k]).hash != self@.hash,
            decreases n - i,
        {
            if store.transactions[i].hash.matches(&self.hash) {
                proof {
                    assert(store@.transactions[i as int].hash == self@.hash);
                    assert(has_transaction(store@.transactions, self@.hash));
                    assert(store@ == old(store)@);
                }
                return Err(StoreError::DuplicateKey);
            }
            i += 1;
        }
        let row = Transaction {
            hash: self.hash.clone(),
            block_hash: self.block_hash.clone(),
            index: self.index,
            from: clone_opt_hash160(&self.from),
            to: clone_opt_hash160(&self.to),
            input: clone_bytes(&self.input),
            value: clone_bytes(&self.value),
            status: None,
        };
        proof {
            assert(!has_transaction(store@.transactions, self@.hash));
            assert(row@ == transaction_of_new(self@));
        }
        store.transactions.push(row);
        proof {
            assert(store@.transactions =~= old(store)@.transactions.push(
                transaction_of_new(self@),
            ));
            assert forall|i: int, j: int|
                0 <= i < j < store@.transactions.len() implies store@.transactions[i].hash
                != store@.transactions[j].hash by {
                if j < store@.transactions.len() - 1 {
                    assert(old(store).wf());
                } else {
                    assert(store@.transactions[j] == transaction_of_new(self@));
                }
            }
        }
        Ok(1)
    }

    /// Set a transaction status.
    ///
    /// Updates the status of every row whose hash is `hash` (at most one,
    /// since hashes are unique) and returns the number of affected rows.
    pub fn set_status(store: &mut Store, hash: &Hash256, status: bool) -> (r: Result<
        usize,
        StoreError,
    >)
        requires
            old(store).wf(),
        ensures
            final(store).wf(),
            final(store)@.slots == old(store)@.slots,
            final(store)@.blocks == old(store)@.blocks,
            final(store)@.validators == old(store)@.validators,
            final(store)@.transactions == set_status_spec(
                old(store)@.transactions,
                hash@,
                status,
            ),
            r == Ok::<usize, StoreError>(
                if has_transaction(old(store)@.transactions, hash@) {
                    1usize
                } else {
                    0usize
                },
            ),
    {
        let ghost orig = store@.transactions;
        let n = store.transactions.len();
        let mut i: usize = 0;
        while i < n
            invariant
                old(store).wf(),
                store@.slots == old(store)@.slots,
                store@.blocks == old(store)@.blocks,
                store@.validators == old(store)@.validators,
                store@.transactions == orig,
                orig == old(store)@.transactions,
                n == store.transactions@.len(),
                0 <= i <= n,
                forall|k: int| 0 <= k < i ==> (#[trigger] orig[k]).hash != hash@,
            decreases n - i,
        {
            if store.transactions[i].hash.matches(hash) {
                let mut row = store.transactions[i].clone();
                row.status = Some(status);
                proof {
                    assert(orig[i as int].hash == hash@);
                    assert(has_transaction(orig, hash@));
                    assert(row@ == with_status(orig[i as int], status));
                }
                store.transactions[i] = row;
                proof {
                    assert forall|k: int| 0 <= k < orig.len() implies store@.transactions[k]
                        == set_status_spec(orig, hash@, status)[k] by {
                        if k != i {
                            assert(orig[k].hash == hash@ ==> false) by {
                                if orig[k].hash == hash@ {
                                    if k < i as int {
                                        assert(orig[k].hash != hash@);
                                    } else {
                                        assert(old(store).wf());
                                        assert(orig[i as int].hash == orig[k].hash);
                                    }
                                }
                            }
                        }
                    }
                    assert(store@.transactions =~= set_status_spec(orig, hash@, status));
                    assert forall|a: int, b: int|
                        0 <= a < b < store@.transactions.len() implies store@.transactions[a].hash
                        != store@.transactions[b].hash by {
                        assert(old(store).wf());
                        assert(store@.transactions[a].hash == orig[a].hash);
                        assert(store@.transactions[b].hash == orig[b].hash);
                    }
                    assert forall|a: int|
                        0 <= a < store@.transactions.len() implies (#[trigger] store@.transactions[a]).wf() by {
                        assert(old(store).wf());
                        assert(orig[a].wf());
                    }
                }
                return Ok(1);
            }
            i += 1;
        }
        proof {
            assert forall|k: int| 0 <= k < orig.len() implies set_status_spec(orig, hash@, status)[k]
                == orig[k] by {
                assert(orig[k].hash != hash@);
            }
            assert(set_status_spec(orig, hash@, status) =~= orig);
        }
        Ok(0)
    }
}

/// A batch of insertable transactions, persisted as one atomic strict
/// insert.
pub struct NewTransactions(pub Vec<NewTransaction>);

impl View for NewTransactions {
    type V = Seq<NewTransactionV>;

    open spec fn view(&self) -> Seq<NewTransactionV> {
        self.0.deep_view()
    }
}

/// The batch brings no hash that the table already has, and no hash
/// twice.
pub open spec fn batch_insert_ok(s: Seq<TransactionV>, batch: Seq<NewTransactionV>) -> bool {
    &&& forall|i: int| 0 <= i < batch.len() ==> !has_transaction(s, (#[trigger] batch[i]).hash)
    &&& forall|i: int, j: int| 0 <= i < j < batch.len() ==> batch[i].hash != batch[j].hash
}

impl NewTransactions {
    pub fn new(transactions: Vec<NewTransaction>) -> (r: NewTransactions)
        ensures
            r@ == transactions.deep_view(),
    {
        NewTransactions(transactions)
    }

    pub open spec fn wf(&self) -> bool {
        forall|i: int| 0 <= i < self@.len() ==> transaction_of_new(#[trigger] self@[i]).wf()
    }

    /// Whether inserting the batch would hit a hash the table already has,
    /// or a hash repeated inside the batch.
    pub fn conflicts(&self, store: &Store) -> (r: bool)
        ensures
            r == !batch_insert_ok(store@.transactions, self@),
    {
        let m = self.0.len();
        let mut i: usize = 0;
        while i < m
            invariant
                m == self.0@.len(),
                0 <= i <= m,
                forall|k: int|
                    0 <= k < i ==> !has_transaction(
                        store@.transactions,
                        (#[trigger] self@[k]).hash,
                    ),
                forall|k: int, l: int| 0 <= k < l < i ==> self@[k].hash != self@[l].hash,
            decreases m - i,
        {
            let n = store.transactions.len();
            let mut j: usize = 0;
            while j < n
                invariant
                    n == store.transactions@.len(),
                    m == self.0@.len(),
                    0 <= i < m,
                    0 <= j <= n,
                    forall|k: int|
                        0 <= k < j ==> (#[trigger] store@.transactions[k]).hash != self@[i as int].hash,
                decreases n - j,
            {
                if store.transactions[j].hash.matches(&self.0[i].hash) {
                    proof {
                        assert(store@.transactions[j as int].hash == self@[i as int].hash);
                        assert(has_transaction(store@.transactions, self@[i as int].hash));
                    }
                    return true;
                }
                j += 1;
            }
            let mut j2: usize = 0;
            while j2 < i
                invariant
                    m == self.0@.len(),
                    0 <= i < m,
                    0 <= j2 <= i,
                    forall|k: int| 0 <= k < j2 ==> (#[trigger] self@[k]).hash != self@[i as int].hash,
                decreases i - j2,
            {
                if self.0[j2].hash.matches(&self.0[i].hash) {
                    proof {
                        assert(self@[j2 as int].hash == self@[i as int].hash);
                        assert(!batch_insert_ok(store@.transactions, self@));
                    }
                    return true;
                }
                j2 += 1;
            }
            proof {
                assert(!has_transaction(store@.transactions, self@[i as int].hash));
            }
            i += 1;
        }
        proof {
            assert(batch_insert_ok(store@.transactions, self@));
        }
        false
    }

    /// Insert the whole batch atomically: all rows are appended in order,
    /// or, when any hash conflicts with the table or repeats inside the
    /// batch, nothing is written and `DuplicateKey` is returned.
    pub fn batch_insert(&self, store: &mut Store) -> (r: Result<usize, StoreError>)
        requires
            old(store).wf(),
            self.wf(),
        ensures
            final(store).wf(),
            final(store)@.slots == old(store)@.slots,
            final(store)@.blocks == old(store)@.blocks,
            final(store)@.validators == old(store)@.validators,
            match r {
                Ok(n) => batch_insert_ok(old(store)@.transactions, self@)
                    && final(store)@.transactions == old(store)@.transactions + self@.map_values(
                    |t: NewTransactionV| transaction_of_new(t),
                ) && n == self@.len(),
                Err(e) => !batch_insert_ok(old(store)@.transactions, self@) && final(store)@
                    == old(store)@ && e == StoreError::DuplicateKey,
            },
    {
        let m = self.0.len();
        let mut i: usize = 0;
        while i < m
            invariant
                old(store).wf(),
                self.wf(),
                *store == *old(store),
                m == self.0@.len(),
                0 <= i <= m,
                forall|k: int|
                    0 <= k < i ==> !has_transaction(
                        old(store)@.transactions,
                        (#[trigger] self@[k]).hash,
                    ),
                forall|k: int, l: int| 0 <= k < l < i ==> self@[k].hash != self@[l].hash,
            decreases m - i,
        {
            let mut j: usize = 0;
            let n = store.transactions.len();
            while j < n
                invariant
                    old(store).wf(),
                    *store == *old(store),
                    n == store.transactions@.len(),
                    m == self.0@.len(),
                    0 <= i < m,
                    0 <= j <= n,
                    forall|k: int|
                        0 <= k < j ==> (#[trigger] store@.transactions[k]).hash != self@[i as int].hash,
                decreases n - j,
            {
                if store.transactions[j].hash.matches(&self.0[i].hash) {
                    proof {
                        assert(store@.transactions[j as int].hash == self@[i as int].hash);
                        assert(has_transaction(old(store)@.transactions, self@[i as int].hash));
                        assert(!batch_insert_ok(old(store)@.transactions, self@));
                        assert(store@ == old(store)@);
                    }
                    return Err(StoreError::DuplicateKey);
                }
                j += 1;
            }
            let mut j2: usize = 0;
            while j2 < i
                invariant
                    old(store).wf(),
                    *store == *old(store),
                    m == self.0@.len(),
                    0 <= i < m,
                    0 <= j2 <= i,
                    forall|k: int| 0 <= k < j2 ==> (#[trigger] self@[k]).hash != self@[i as int].hash,
                decreases i - j2,
            {
                if self.0[j2].hash.matches(&self.0[i].hash) {
                    proof {
                        assert(self@[j2 as int].hash == self@[i as int].hash);
                        assert(!batch_insert_ok(old(store)@.transactions, self@));
                        assert(store@ == old(store)@);
                    }
                    return Err(StoreError::DuplicateKey);
                }
                j2 += 1;
            }
            proof {
                assert(!has_transaction(old(store)@.transactions, self@[i as int].hash));
            }
            i += 1;
        }
        proof {
            assert(batch_insert_ok(old(store)@.transactions, self@));
        }
        let ghost orig = store@.transactions;
        let mut i2: usize = 0;
        while i2 < m
            invariant
                old(store).wf(),
                self.wf(),
                batch_insert_ok(orig, self@),
                orig == old(store)@.transactions,
                store@.slots == old(store)@.slots,
                store@.blocks == old(store)@.blocks,
                store@.validators == old(store)@.validators,
                m == self.0@.len(),
                0 <= i2 <= m,
                store@.transactions == orig + self@.subrange(0, i2 as int).map_values(
                    |t: NewTransactionV| transaction_of_new(t),
                ),
                store.wf(),
            decreases m - i2,
        {
            let t = &self.0[i2];
            let row = Transaction {
                hash: t.hash.clone(),
                block_hash: t.block_hash.clone(),
                index: t.index,
                from: clone_opt_hash160(&t.from),
                to: clone_opt_hash160(&t.to),
                input: clone_bytes(&t.input),
                value: clone_bytes(&t.value),
                status: None,
            };
            proof {
                assert(row@ == transaction_of_new(self@[i2 as int]));
            }
            let ghost pre = store@.transactions;
            store.transactions.push(row);
            proof {
                assert(store@.transactions =~= pre.push(transaction_of_new(self@[i2 as int])));
                assert(self@.subrange(0, i2 as int + 1) =~= self@.subrange(0, i2 as int).push(
                    self@[i2 as int],
                ));
                assert(store@.transactions =~= orig + self@.subrange(0, i2 as int + 1).map_values(
                    |t: NewTransactionV| transaction_of_new(t),
                ));
                assert forall|a: int, b: int|
                    0 <= a < b < store@.transactions.len() implies store@.transactions[a].hash
                    != store@.transactions[b].hash by {
                    let olen = orig.len() as int;
                    if b < store@.transactions.len() - 1 {
                    } else {
                        assert(store@.transactions[b] == transaction_of_new(self@[i2 as int]));
                        if a < olen {
                            assert(!has_transaction(orig, self@[i2 as int].hash));
                            assert(store@.transactions[a] == orig[a]);
                        } else {
                            assert(store@.transactions[a] == transaction_of_new(
                                self@[a - olen],
                            ));
                            assert(self@[a - olen].hash != self@[i2 as int].hash);
                        }
                    }
                }
                assert forall|a: int|
                    0 <= a < store@.transactions.len() implies (#[trigger] store@.transactions[a]).wf() by {
                    let olen = orig.len() as int;
                    if a < olen {
                        assert(orig[a].wf());
                    } else {
                        assert(store@.transactions[a] == transaction_of_new(self@[a - olen]));
                    }
                }
            }
            i2 += 1;
        }
        proof {
            assert(self@.subrange(0, m as int) =~= self@);
            assert(store@.transactions == orig + self@.map_values(
                |t: NewTransactionV| transaction_of_new(t),
            ));
        }
        Ok(m)
    }
}

} // verus!
