use eth_parser::chain::ValidatorInfo;
use eth_parser::error::StoreError;
use eth_parser::models::execution_blocks::{ExecBlock, NewExecBlock};
use eth_parser::models::slots::{NewSlot, Slot};
use eth_parser::models::specs::NewSpec;
use eth_parser::models::transactions::{NewTransaction, NewTransactions, Transaction};
use eth_parser::models::validators::{NewValidator, NewValidators, Validator};
use eth_parser::primitives::{Hash160, Hash256, U256};
use eth_parser::store::Store;

fn h256(b: u8) -> Hash256 {
    Hash256::new(vec![b; 32])
}

fn h160(b: u8) -> Hash160 {
    Hash160::new(vec![b; 20])
}

fn info(index: u64, pubkey_byte: u8, balance: u64) -> ValidatorInfo {
    ValidatorInfo {
        index,
        balance,
        status: "active_ongoing".to_string(),
        pubkey: vec![pubkey_byte; 48],
        withdrawal_credentials: h256(0x0b),
        effective_balance: balance,
        slashed: false,
        activation_eligibility_epoch: 1,
        activation_epoch: 2,
        exit_epoch: 3,
        withdrawable_epoch: 4,
    }
}

#[test]
fn slot_insert_do_nothing_skips_on_conflict() {
    let mut store = Store::new();
    let first = NewSlot::new(5, Some(h256(1)), Some(10));
    assert_eq!(first.insert_do_nothing(&mut store), 1);
    // A later attempt at the same height must not overwrite the row.
    let second = NewSlot::new(5, Some(h256(2)), Some(11));
    assert_eq!(second.insert_do_nothing(&mut store), 0);
    let row = Slot::get(&store, 5).unwrap();
    assert_eq!(row.height(), 5);
    assert!(row.block_hash().as_ref().unwrap().matches(&h256(1)));
    assert_eq!(row.block_number(), Some(10));
    assert_eq!(row.validators_count(), None);
}

#[test]
fn slot_strict_insert_fails_on_conflict() {
    let mut store = Store::new();
    assert!(NewSlot::new(5, None, None).insert(&mut store).is_ok());
    assert_eq!(
        NewSlot::new(5, None, None).insert(&mut store),
        Err(StoreError::DuplicateKey)
    );
}

#[test]
fn slot_get_highest_reports_the_top_height() {
    let mut store = Store::new();
    assert_eq!(Slot::get_highest(&store).unwrap_err(), StoreError::NotFound);
    NewSlot::new(3, None, None).insert_do_nothing(&mut store);
    NewSlot::new(9, None, None).insert_do_nothing(&mut store);
    NewSlot::new(7, None, None).insert_do_nothing(&mut store);
    assert_eq!(Slot::get_highest(&store).unwrap().height(), 9);
}

#[test]
fn exec_block_strict_insert_rejects_duplicate_hash_or_number() {
    let mut store = Store::new();
    let block =
        NewExecBlock::new(h256(1), 4, h256(2), h256(3), h256(4), h256(5));
    assert_eq!(block.insert(&mut store), Ok(1));
    // Same hash, different number.
    let dup_hash = NewExecBlock::new(h256(1), 5, h256(2), h256(3), h256(4), h256(5));
    assert_eq!(dup_hash.insert(&mut store), Err(StoreError::DuplicateKey));
    // Same number, different hash.
    let dup_number = NewExecBlock::new(h256(9), 4, h256(2), h256(3), h256(4), h256(5));
    assert_eq!(dup_number.insert(&mut store), Err(StoreError::DuplicateKey));
    assert_eq!(ExecBlock::get(&store, 4).unwrap().number(), 4);
    assert_eq!(ExecBlock::get_highest(&store).unwrap().number(), 4);
}

#[test]
fn transaction_batch_insert_is_atomic() {
    let mut store = Store::new();
    let t1 = NewTransaction::new(h256(1), h256(9), 0, Some(h160(1)), None, vec![1, 2], U256::zero());
    let ok = NewTransactions::new(vec![t1]);
    assert_eq!(ok.batch_insert(&mut store), Ok(1));
    // A batch holding one duplicate hash writes nothing at all.
    let t2 = NewTransaction::new(h256(2), h256(9), 1, None, None, vec![], U256::zero());
    let t_dup = NewTransaction::new(h256(1), h256(9), 2, None, None, vec![], U256::zero());
    let bad = NewTransactions::new(vec![t2, t_dup]);
    assert_eq!(bad.batch_insert(&mut store), Err(StoreError::DuplicateKey));
    assert!(Transaction::get(&store, &h256(2)).is_err());
    assert_eq!(store.transactions.len(), 1);
}

#[test]
fn transaction_status_starts_absent_and_can_be_set() {
    let mut store = Store::new();
    let t1 = NewTransaction::new(h256(1), h256(9), 0, None, Some(h160(7)), vec![5], U256::zero());
    t1.insert(&mut store).unwrap();
    let row = Transaction::get(&store, &h256(1)).unwrap();
    assert_eq!(row.status(), None);
    assert!(row.to().unwrap().matches(&h160(7)));
    assert_eq!(row.input(), vec![5]);
    assert_eq!(NewTransaction::set_status(&mut store, &h256(1), true), Ok(1));
    assert_eq!(Transaction::get(&store, &h256(1)).unwrap().status(), Some(true));
    // Setting the status of an unknown hash affects no rows.
    assert_eq!(NewTransaction::set_status(&mut store, &h256(3), false), Ok(0));
}

#[test]
fn validator_upsert_merges_mutable_fields_only() {
    let mut store = Store::new();
    let v = NewValidator::from(info(7, 0xaa, 100));
    NewValidators::new(vec![v]).batch_upsert(&mut store).unwrap();
    // Link the validator, then refresh it with different values.
    let tx = h256(0x11);
    assert_eq!(
        NewValidator::set_deposit_transaction(&mut store, &format!("0x{}", "aa".repeat(48)), &tx),
        Ok(1)
    );
    let mut refreshed = info(7, 0xaa, 250);
    refreshed.activation_epoch = 99;
    let v2 = NewValidator::from(refreshed);
    NewValidators::new(vec![v2]).batch_upsert(&mut store).unwrap();
    let row = Validator::get(&store, 7).unwrap();
    // Mutable fields refreshed.
    assert_eq!(row.balance(), 250);
    assert_eq!(row.effective_balance(), 250);
    // Epoch fields and the deposit link survive the merge.
    assert!(row.deposit_transaction().as_ref().unwrap().matches(&tx));
    // A fresh index is appended instead.
    let v3 = NewValidator::from(info(8, 0xbb, 1));
    NewValidators::new(vec![v3]).batch_upsert(&mut store).unwrap();
    assert_eq!(store.validators.len(), 2);
    assert_eq!(Validator::get(&store, 8).unwrap().balance(), 1);
}

#[test]
fn deposit_link_counts_matching_rows() {
    let mut store = Store::new();
    let a = NewValidator::from(info(1, 0xaa, 5));
    let b = NewValidator::from(info(2, 0xaa, 6));
    NewValidators::new(vec![a, b]).batch_upsert(&mut store).unwrap();
    let key = format!("0x{}", "aa".repeat(48));
    // Two rows share the key: the affected-row count reports the anomaly.
    assert_eq!(
        NewValidator::set_deposit_transaction(&mut store, &key, &h256(1)),
        Ok(2)
    );
    // No row carries an unknown key.
    let other = format!("0x{}", "cc".repeat(48));
    assert_eq!(
        NewValidator::set_deposit_transaction(&mut store, &other, &h256(1)),
        Ok(0)
    );
}

#[test]
fn validator_record_renders_pubkey_in_hex() {
    let v = NewValidator::from(info(3, 0xa7, 5));
    let mut store = Store::new();
    NewValidators::new(vec![v]).batch_upsert(&mut store).unwrap();
    let row = Validator::get(&store, 3).unwrap();
    assert_eq!(row.pubkey().as_str(), format!("0x{}", "a7".repeat(48)).as_str());
    assert_eq!(row.status().as_str(), "active_ongoing");
}

#[test]
fn new_spec_keeps_both_names() {
    let spec = NewSpec::new("kiln", "mainnet");
    assert_eq!(spec.name.as_str(), "kiln");
    assert_eq!(spec.preset_base.as_str(), "mainnet");
}

#[test]
fn exec_block_insert_do_nothing_skips_on_conflict() {
    let mut store = Store::new();
    let block = NewExecBlock::new(h256(1), 4, h256(2), h256(3), h256(4), h256(5));
    assert_eq!(block.insert_do_nothing(&mut store), 1);
    let dup = NewExecBlock::new(h256(1), 9, h256(2), h256(3), h256(4), h256(5));
    assert_eq!(dup.insert_do_nothing(&mut store), 0);
    assert_eq!(ExecBlock::get_highest(&store).unwrap().number(), 4);
}
