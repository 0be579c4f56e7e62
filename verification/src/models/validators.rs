//! Validator rows, keyed by validator index.
//!
//! The refresher merge-upserts the full validator set: on conflict only
//! the mutable fields (balance, status, withdrawal credentials, effective
//! balance, slashed flag) are updated; the epoch fields and the deposit
//! transaction link survive.  The deposit link is the one field set by
//! the execution adapter's linking step, matched by public key.

use vstd::prelude::*;

use crate::chain::ValidatorInfo;
use crate::codec::{pubkey_hex, pubkey_hex_of};
use crate::error::StoreError;
use crate::store::Store;
use crate::primitives::{clone_opt_hash256, Hash256};

verus! {

/// Mathematical form of a validator row.
#[verifier::ext_equal]
pub ghost struct ValidatorV {
    pub index: u64,
    pub balance: u64,
    pub status: Seq<char>,
    pub pubkey: Seq<char>,
    pub withdrawal_credentials: Seq<u8>,
    pub effective_balance: u64,
    pub slashed: bool,
    pub activation_eligibility_epoch: u64,
    pub activation_epoch: u64,
    pub exit_epoch: u64,
    pub withdrawable_epoch: u64,
    pub deposit_transaction: Option<Seq<u8>>,
}

impl ValidatorV {
    /// Credentials are 32 bytes; a present deposit link is 32 bytes.
    pub open spec fn wf(self) -> bool {
        &&& self.withdrawal_credentials.len() == 32
        &&& match self.deposit_transaction {
            Some(h) => h.len() == 32,
            None => true,
        }
    }
}

/// A stored validator row.
#[derive(Debug)]
pub struct Validator {
    pub index: u64,
    pub balance: u64,
    pub status: String,
    pub pubkey: String,
    pub withdrawal_credentials: Hash256,
    pub effective_balance: u64,
    pub slashed: bool,
    pub activation_eligibility_epoch: u64,
    pub activation_epoch: u64,
    pub exit_epoch: u64,
    pub withdrawable_epoch: u64,
    pub deposit_transaction: Option<Hash256>,
}

impl View for Validator {
    type V = ValidatorV;

    open spec fn view(&self) -> ValidatorV {
        ValidatorV {
            index: self.index,
            balance: self.balance,
            status: self.status@,
            pubkey: self.pubkey@,
            withdrawal_credentials: self.withdrawal_credentials@,
            effective_balance: self.effective_balance,
            slashed: self.slashed,
            activation_eligibility_epoch: self.activation_eligibility_epoch,
            activation_epoch: self.activation_epoch,
            exit_epoch: self.exit_epoch,
            withdrawable_epoch: self.withdrawable_epoch,
            deposit_transaction: self.deposit_transaction.deep_view(),
        }
    }
}

impl DeepView for Validator {
    type V = ValidatorV;

    open spec fn deep_view(&self) -> ValidatorV {
        self@
    }
}

impl Clone for Validator {
    fn clone(&self) -> (r: Validator)
        ensures
            r@ == self@,
    {
        Validator {
            index: self.index,
            balance: self.balance,
            status: self.status.clone(),
            pubkey: self.pubkey.clone(),
            withdrawal_credentials: self.withdrawal_credentials.clone(),
            effective_balance: self.effective_balance,
            slashed: self.slashed,
            activation_eligibility_epoch: self.activation_eligibility_epoch,
            activation_epoch: self.activation_epoch,
            exit_epoch: self.exit_epoch,
            withdrawable_epoch: self.withdrawable_epoch,
            deposit_transaction: clone_opt_hash256(&self.deposit_transaction),
        }
    }
}

/// There is a validator row with index `idx`.
pub open spec fn has_validator(s: Seq<ValidatorV>, idx: u64) -> bool {
    exists|i: int| 0 <= i < s.len() && s[i].index == idx
}

/// The validator row with index `idx`, meaningful when `has_validator`
/// holds and indexes are unique.
pub open spec fn validator_at(s: Seq<ValidatorV>, idx: u64) -> ValidatorV {
    s[choose|i: int| 0 <= i < s.len() && s[i].index == idx]
}

/// No two validator rows share an index.
pub open spec fn unique_validator_indexes(s: Seq<ValidatorV>) -> bool {
    forall|i: int, j: int| 0 <= i < j < s.len() ==> s[i].index != s[j].index
}

/// How many validator rows carry the public key `pk`.
pub open spec fn count_with_pubkey(s: Seq<ValidatorV>, pk: Seq<char>) -> nat
    decreases s.len(),
{
    if s.len() == 0 {
        0
    } else {
        count_with_pubkey(s.drop_last(), pk) + if s.last().pubkey == pk {
            1nat
        } else {
            0nat
        }
    }
}

/// A validator row with its deposit transaction link set.
pub open spec fn with_deposit(v: ValidatorV, tx: Seq<u8>) -> ValidatorV {
    ValidatorV { deposit_transaction: Some(tx), ..v }
}

/// The validators table after linking every row with public key `pk` to
/// the deposit transaction `tx`; other rows are untouched.
pub open spec fn set_deposit_spec(s: Seq<ValidatorV>, pk: Seq<char>, tx: Seq<u8>) -> Seq<
    ValidatorV,
> {
    s.map_values(
        |v: ValidatorV|
            if v.pubkey == pk {
                with_deposit(v, tx)
            } else {
                v
            },
    )
}

impl Validator {
    pub fn index(&self) -> (r: u64)
        ensures
            r == self@.index,
    {
        self.index
    }

    pub fn balance(&self) -> (r: u64)
        ensures
            r == self@.balance,
    {
        self.balance
    }

    pub fn status(&self) -> (r: &String)
        ensures
            r@ == self@.status,
    {
        &self.status
    }

    pub fn pubkey(&self) -> (r: &String)
        ensures
            r@ == self@.pubkey,
    {
        &self.pubkey
    }

    pub fn effective_balance(&self) -> (r: u64)
        ensures
            r == self@.effective_balance,
    {
        self.effective_balance
    }

    pub fn slashed(&self) -> (r: bool)
        ensures
            r == self@.slashed,
    {
        self.slashed
    }

    pub fn deposit_transaction(&self) -> (r: &Option<Hash256>)
        ensures
            r.deep_view() == self@.deposit_transaction,
    {
        &self.deposit_transaction
    }

    /// Return the unique validator with index `index`, or `NotFound`.
    pub fn get(store: &Store, index: u64) -> (r: Result<Validator, StoreError>)
        requires
            store.wf(),
        ensures
            match r {
                Ok(row) => has_validator(store@.validators, index) && row@ == validator_at(
                    store@.validators,
                    index,
                ) && row@.index == index,
                Err(e) => !has_validator(store@.validators, index) && e == StoreError::NotFound,
            },
    {
        let n = store.validators.len();
        let mut i: usize = 0;
        while i < n
            invariant
                store.wf(),
                n == store.validators@.len(),
                0 <= i <= n,
                forall|k: int| 0 <= k < i ==> (#[trigger] store@.validators[k]).index != index,
            decreases n - i,
        {
            if store.validators[i].index == index {
                let row = store.validators[i].clone();
                proof {
                    assert(store@.validators[i as int].index == index);
                    let w = choose|k: int|
                        0 <= k < store@.validators.len() && store@.validators[k].index == index;
                    if w < i as int {
                        assert(store@.validators[w].index != index);
                    } else if w > i as int {
                        assert(store@.validators[i as int].index != store@.validators[w].index);
                    }
                    assert(w == i);
                }
                return Ok(row);
            }
            i += 1;
        }
        Err(StoreError::NotFound)
    }
}

/// Mathematical form of an insertable validator.
#[verifier::ext_equal]
pub ghost struct NewValidatorV {
    pub index: u64,
    pub balance: u64,
    pub status: Seq<char>,
    pub pubkey: Seq<char>,
    pub withdrawal_credentials: Seq<u8>,
    pub effective_balance: u64,
    pub slashed: bool,
    pub activation_eligibility_epoch: u64,
    pub activation_epoch: u64,
    pub exit_epoch: u64,
    pub withdrawable_epoch: u64,
}

impl NewValidatorV {
    pub open spec fn wf(self) -> bool {
        self.withdrawal_credentials.len() == 32
    }
}

/// The stored row a fresh insert produces: no deposit link yet.
pub open spec fn validator_of_new(n: NewValidatorV) -> ValidatorV {
    ValidatorV {
        index: n.index,
        balance: n.balance,
        status: n.status,
        pubkey: n.pubkey,
        withdrawal_credentials: n.withdrawal_credentials,
        effective_balance: n.effective_balance,
        slashed: n.slashed,
        activation_eligibility_epoch: n.activation_eligibility_epoch,
        activation_epoch: n.activation_epoch,
        exit_epoch: n.exit_epoch,
        withdrawable_epoch: n.withdrawable_epoch,
        deposit_transaction: None,
    }
}

/// A stored row refreshed by a merge: only the mutable fields are taken
/// from the incoming record; epochs and the deposit link survive.
pub open spec fn merge_validator(row: ValidatorV, n: NewValidatorV) -> ValidatorV {
    ValidatorV {
        balance: n.balance,
        status: n.status,
        withdrawal_credentials: n.withdrawal_credentials,
        effective_balance: n.effective_balance,
        slashed: n.slashed,
        ..row
    }
}

/// Representation of a validator row to be inserted or merged.
#[derive(Debug)]
pub struct NewValidator {
    pub index: u64,
    pub balance: u64,
    pub status: String,
    pub pubkey: String,
    pub withdrawal_credentials: Hash256,
    pub effective_balance: u64,
    pub slashed: bool,
    pub activation_eligibility_epoch: u64,
    pub activation_epoch: u64,
    pub exit_epoch: u64,
    pub withdrawable_epoch: u64,
}

impl View for NewValidator {
    type V = NewValidatorV;

    open spec fn view(&self) -> NewValidatorV {
        NewValidatorV {
            index: self.index,
            balance: self.balance,
            status: self.status@,
            pubkey: self.pubkey@,
            withdrawal_credentials: self.withdrawal_credentials@,
            effective_balance: self.effective_balance,
            slashed: self.slashed,
            activation_eligibility_epoch: self.activation_eligibility_epoch,
            activation_epoch: self.activation_epoch,
            exit_epoch: self.exit_epoch,
            withdrawable_epoch: self.withdrawable_epoch,
        }
    }
}

impl DeepView for NewValidator {
    type V = NewValidatorV;

    open spec fn deep_view(&self) -> NewValidatorV {
        self@
    }
}

/// The record a fetched validator maps to: the public key is stored in
/// its `0x`-prefixed lowercase hexadecimal form.
pub open spec fn new_validator_of_info(
    info: crate::chain::ValidatorInfoV,
) -> NewValidatorV {
    NewValidatorV {
        index: info.index,
        balance: info.balance,
        status: info.status,
        pubkey: pubkey_hex_of(info.pubkey),
        withdrawal_credentials: info.withdrawal_credentials,
        effective_balance: info.effective_balance,
        slashed: info.slashed,
        activation_eligibility_epoch: info.activation_eligibility_epoch,
        activation_epoch: info.activation_epoch,
        exit_epoch: info.exit_epoch,
        withdrawable_epoch: info.withdrawable_epoch,
    }
}

impl NewValidator {
    /// Map a fetched validator to its insertable record.
    pub fn from(info: ValidatorInfo) -> (r: NewValidator)
        requires
            info@.withdrawal_credentials.len() == 32,
        ensures
            r@ == new_validator_of_info(info@),
            r@.wf(),
    {
        let pubkey = pubkey_hex(&info.pubkey);
        NewValidator {
            index: info.index,
            balance: info.balance,
            status: info.status,
            pubkey,
            withdrawal_credentials: info.withdrawal_credentials,
            effective_balance: info.effective_balance,
            slashed: info.slashed,
            activation_eligibility_epoch: info.activation_eligibility_epoch,
            activation_epoch: info.activation_epoch,
            exit_epoch: info.exit_epoch,
            withdrawable_epoch: info.withdrawable_epoch,
        }
    }

    /// Link every validator row whose stored public key equals `pubkey`
    /// to the deposit transaction `transaction`.
    ///
    /// Return the number of affected rows: the caller treats any count
    /// other than exactly one as a data-consistency anomaly.
    pub fn set_deposit_transaction(store: &mut Store, pubkey: &String, transaction: &Hash256) -> (r:
        Result<usize, StoreError>)
        requires
            old(store).wf(),
            transaction@.len() == 32,
        ensures
            final(store).wf(),
            final(store)@.slots == old(store)@.slots,
            final(store)@.blocks == old(store)@.blocks,
            final(store)@.transactions == old(store)@.transactions,
            final(store)@.validators == set_deposit_spec(
                old(store)@.validators,
                pubkey@,
                transaction@,
            ),
            r == Ok::<usize, StoreError>(
                count_with_pubkey(old(store)@.validators, pubkey@) as usize,
            ),
            count_with_pubkey(old(store)@.validators, pubkey@) <= old(store)@.validators.len(),
    {
        let ghost orig = store@.validators;
        proof {
            lemma_count_with_pubkey_le_len(orig, pubkey@);
        }
        let n = store.validators.len();
        let mut i: usize = 0;
        let mut affected: usize = 0;
        while i < n
            invariant
                old(store).wf(),
                transaction@.len() == 32,
                store@.slots == old(store)@.slots,
                store@.blocks == old(store)@.blocks,
                store@.transactions == old(store)@.transactions,
                orig == old(store)@.validators,
                orig.len() == n,
                n == store.validators@.len(),
                0 <= i <= n,
                affected == count_with_pubkey(orig.subrange(0, i as int), pubkey@),
                affected <= i,
                forall|k: int|
                    0 <= k < i ==> store@.validators[k] == set_deposit_spec(
                        orig,
                        pubkey@,
                        transaction@,
                    )[k],
                forall|k: int| i <= k < n ==> store@.validators[k] == orig[k],
            decreases n - i,
        {
            proof {
                assert(orig.subrange(0, i as int + 1).drop_last() =~= orig.subrange(0, i as int));
                assert(orig.subrange(0, i as int + 1).last() == orig[i as int]);
            }
            if store.validators[i].pubkey.eq(pubkey) {
                let mut row = store.validators[i].clone();
                row.deposit_transaction = Some(transaction.clone());
                proof {
                    assert(orig[i as int].pubkey == pubkey@);
                    assert(row@ == with_deposit(orig[i as int], transaction@));
                }
                let ghost pre = store@.validators;
                store.validators[i] = row;
                affected += 1;
                proof {
                    assert(store@.validators =~= pre.update(
                        i as int,
                        with_deposit(orig[i as int], transaction@),
                    ));
                    assert(store@.validators[i as int] == set_deposit_spec(
                        orig,
                        pubkey@,
                        transaction@,
                    )[i as int]);
                }
            } else {
                proof {
                    assert(orig[i as int].pubkey != pubkey@);
                    assert(store@.validators[i as int] == orig[i as int]);
                    assert(store@.validators[i as int] == set_deposit_spec(
                        orig,
                        pubkey@,
                        transaction@,
                    )[i as int]);
                }
            }
            i += 1;
        }
        proof {
            assert(orig.subrange(0, n as int) =~= orig);
            assert(store@.validators =~= set_deposit_spec(orig, pubkey@, transaction@));
            assert forall|a: int, b: int|
                0 <= a < b < store@.validators.len() implies store@.validators[a].index
                != store@.validators[b].index by {
                assert(old(store).wf());
                assert(store@.validators[a].index == orig[a].index);
                assert(store@.validators[b].index == orig[b].index);
            }
            assert forall|a: int|
                0 <= a < store@.validators.len() implies (#[trigger] store@.validators[a]).wf() by {
                assert(old(store).wf());
                assert(orig[a].wf());
            }
        }
        Ok(affected)
    }
}

/// The count of rows matching a key never exceeds the table's length.
proof fn lemma_count_with_pubkey_le_len(s: Seq<ValidatorV>, pk: Seq<char>)
    ensures
        count_with_pubkey(s, pk) <= s.len(),
    decreases s.len(),
{
    if s.len() > 0 {
        lemma_count_with_pubkey_le_len(s.drop_last(), pk);
    }
}

/// The validators table after one record is merged in: an existing row
/// with the same index is refreshed in place, a new index is appended.
pub open spec fn upsert_one(s: Seq<ValidatorV>, n: NewValidatorV) -> Seq<ValidatorV> {
    if has_validator(s, n.index) {
        s.map_values(
            |row: ValidatorV|
                if row.index == n.index {
                    merge_validator(row, n)
                } else {
                    row
                },
        )
    } else {
        s.push(validator_of_new(n))
    }
}

/// The validators table after a whole batch is merged in, first record
/// first.
pub open spec fn upsert_all(s: Seq<ValidatorV>, batch: Seq<NewValidatorV>) -> Seq<ValidatorV>
    decreases batch.len(),
{
    if batch.len() == 0 {
        s
    } else {
        upsert_one(upsert_all(s, batch.drop_last()), batch.last())
    }
}

/// A wrapper around an array of validators
pub struct NewValidators(pub Vec<NewValidator>);

impl View for NewValidators {
    type V = Seq<NewValidatorV>;

    open spec fn view(&self) -> Seq<NewValidatorV> {
        self.0.deep_view()
    }
}

impl NewValidators {
    pub fn new(validators: Vec<NewValidator>) -> (r: NewValidators)
        ensures
            r@ == validators.deep_view(),
    {
        NewValidators(validators)
    }

    pub open spec fn wf(&self) -> bool {
        forall|i: int| 0 <= i < self@.len() ==> (#[trigger] self@[i]).wf()
    }

    /// Merge-upsert the batch of validators, keyed on validator index.
    ///
    /// # Updated fields
    /// `balance`, `status`, `withdrawal_credentials`, `effective_balance`,
    /// `slashed`; epoch fields and the deposit link are left untouched on
    /// conflict.
    pub fn batch_upsert(&self, store: &mut Store) -> (r: Result<(), StoreError>)
        requires
            old(store).wf(),
            self.wf(),
        ensures
            final(store).wf(),
            final(store)@.slots == old(store)@.slots,
            final(store)@.blocks == old(store)@.blocks,
            final(store)@.transactions == old(store)@.transactions,
            final(store)@.validators == upsert_all(old(store)@.validators, self@),
            r is Ok,
    {
        let ghost orig = store@.validators;
        let m = self.0.len();
        let mut i: usize = 0;
        while i < m
            invariant
                old(store).wf(),
                self.wf(),
                orig == old(store)@.validators,
                store@.slots == old(store)@.slots,
                store@.blocks == old(store)@.blocks,
                store@.transactions == old(store)@.transactions,
                m == self.0@.len(),
                0 <= i <= m,
                store@.validators == upsert_all(orig, self@.subrange(0, i as int)),
                store.wf(),
            decreases m - i,
        {
            proof {
                assert(self@.subrange(0, i as int + 1).drop_last() =~= self@.subrange(0, i as int));
                assert(self@.subrange(0, i as int + 1).last() == self@[i as int]);
                assert(self@[i as int].wf());
            }
            self.upsert_single(store, i);
            i += 1;
        }
        proof {
            assert(self@.subrange(0, m as int) =~= self@);
        }
        Ok(())
    }

    /// Merge one record of the batch into the table.
    fn upsert_single(&self, store: &mut Store, at: usize)
        requires
            old(store).wf(),
            at < self@.len(),
            self@[at as int].wf(),
        ensures
            final(store).wf(),
            final(store)@.slots == old(store)@.slots,
            final(store)@.blocks == old(store)@.blocks,
            final(store)@.transactions == old(store)@.transactions,
            final(store)@.validators == upsert_one(old(store)@.validators, self@[at as int]),
    {
        let ghost orig = store@.validators;
        let ghost nv = self@[at as int];
        let v = &self.0[at];
        let n = store.validators.len();
        let mut j: usize = 0;
        while j < n
            invariant
                old(store).wf(),
                *store == *old(store),
                orig == old(store)@.validators,
                at < self@.len(),
                nv == self@[at as int],
                nv.wf(),
                v == &self.0[at as int],
                n == store.validators@.len(),
                0 <= j <= n,
                forall|k: int| 0 <= k < j ==> (#[trigger] orig[k]).index != nv.index,
            decreases n - j,
        {
            if store.validators[j].index == v.index {
                let mut row = store.validators[j].clone();
                row.balance = v.balance;
                row.status = v.status.clone();
                row.withdrawal_credentials = v.withdrawal_credentials.clone();
                row.effective_balance = v.effective_balance;
                row.slashed = v.slashed;
                proof {
                    assert(row@ == merge_validator(orig[j as int], nv));
                }
                store.validators[j] = row;
                proof {
                    assert(has_validator(orig, nv.index));
                    assert forall|k: int| 0 <= k < orig.len() implies store@.validators[k]
                        == upsert_one(orig, nv)[k] by {
                        if k != j {
                            if orig[k].index == nv.index {
                                if k < j as int {
                                    assert(orig[k].index != nv.index);
                                } else {
                                    assert(old(store).wf());
                                    assert(orig[j as int].index == orig[k].index);
                                }
                            }
                        }
                    }
                    assert(store@.validators =~= upsert_one(orig, nv));
                    assert forall|a: int, b: int|
                        0 <= a < b < store@.validators.len() implies store@.validators[a].index
                        != store@.validators[b].index by {
                        assert(old(store).wf());
                        assert(store@.validators[a].index == orig[a].index);
                        assert(store@.validators[b].index == orig[b].index);
                    }
                    assert forall|a: int|
                        0 <= a < store@.validators.len() implies (#[trigger] store@.validators[a]).wf() by {
                        assert(old(store).wf());
                        assert(orig[a].wf());
                        if a == j {
                            assert(store@.validators[a] == merge_validator(orig[a], nv));
                        }
                    }
                }
                return ;
            }
            j += 1;
        }
        let row = Validator {
            index: v.index,
            balance: v.balance,
            status: v.status.clone(),
            pubkey: v.pubkey.clone(),
            withdrawal_credentials: v.withdrawal_credentials.clone(),
            effective_balance: v.effective_balance,
            slashed: v.slashed,
            activation_eligibility_epoch: v.activation_eligibility_epoch,
            activation_epoch: v.activation_epoch,
            exit_epoch: v.exit_epoch,
            withdrawable_epoch: v.withdrawable_epoch,
            deposit_transaction: None,
        };
        proof {
            assert(!has_validator(orig, nv.index));
            assert(row@ == validator_of_new(nv));
        }
        store.validators.push(row);
        proof {
            assert(store@.validators =~= orig.push(validator_of_new(nv)));
            assert forall|a: int, b: int|
                0 <= a < b < store@.validators.len() implies store@.validators[a].index
                != store@.validators[b].index by {
                if b < store@.validators.len() - 1 {
                    assert(old(store).wf());
                } else {
                    assert(store@.validators[b] == validator_of_new(nv));
                    assert(store@.validators[a] == orig[a]);
                }
            }
            assert forall|a: int|
                0 <= a < store@.validators.len() implies (#[trigger] store@.validators[a]).wf() by {
                if a < store@.validators.len() - 1 {
                    assert(old(store).wf());
                    assert(orig[a].wf());
                } else {
                    assert(store@.validators[a] == validator_of_new(nv));
                    assert(nv.wf());
                }
            }
        }
    }
}

} // verus!
