use eth_parser::abi::decode_deposit_pubkey;
use eth_parser::args::Args;
use eth_parser::chain::{
    BeaconBlock, ConsensusChain, ExecBlockData, ExecPayload, ExecutionChain, Receipt,
    ReceiptEntry, TxData, ValidatorInfo,
};
use eth_parser::error::{Error, StoreError, SyncError};
use eth_parser::models::slots::Slot;
use eth_parser::models::transactions::Transaction;
use eth_parser::models::validators::Validator;
use eth_parser::orchestrator::{
    find_last_exec_block, run_bounded, sync_round, validate_config, FIRST_SLOT_WITH_EXEC_BLOCK,
};
use eth_parser::primitives::{Hash160, Hash256, U256};
use eth_parser::store::Store;
use eth_parser::sync::consensus_layer::ConsensusSyncer;
use eth_parser::sync::execution_layer::ExecutionSyncer;
use eth_parser::sync::syncer::{bump, poll_once};
use eth_parser::sync::validators::update_validators;

fn h256(b: u8) -> Hash256 {
    Hash256::new(vec![b; 32])
}

fn h160(b: u8) -> Hash160 {
    Hash160::new(vec![b; 20])
}

fn deposit_address() -> Hash160 {
    h160(0x42)
}

fn word(n: u64) -> Vec<u8> {
    let mut w = vec![0u8; 32];
    w[24..].copy_from_slice(&n.to_be_bytes());
    w
}

/// A canonical call to the deposit function:
/// `deposit(bytes pubkey, bytes withdrawal_credentials, bytes signature,
/// bytes32 deposit_data_root)`.
fn deposit_input(pubkey: &[u8], wc: &[u8], sig: &[u8]) -> Vec<u8> {
    assert_eq!((pubkey.len(), wc.len(), sig.len()), (48, 32, 96));
    let mut out = vec![0x22, 0x89, 0x51, 0x18];
    out.extend(word(0x80));
    out.extend(word(0xe0));
    out.extend(word(0x120));
    out.extend(vec![0u8; 32]);
    out.extend(word(48));
    out.extend_from_slice(pubkey);
    out.extend(vec![0u8; 16]);
    out.extend(word(32));
    out.extend_from_slice(wc);
    out.extend(word(96));
    out.extend_from_slice(sig);
    out
}

fn beacon_block(payload: Option<(u8, u64)>) -> BeaconBlock {
    BeaconBlock {
        execution_payload: payload.map(|(hash_byte, number)| ExecPayload {
            block_hash: h256(hash_byte),
            block_number: number,
        }),
    }
}

fn exec_block(hash_byte: u8, number: u64, txs: Vec<TxData>) -> ExecBlockData {
    ExecBlockData {
        hash: Some(h256(hash_byte)),
        number: Some(number),
        parent_hash: h256(0xf0),
        state_root: h256(0xf1),
        transactions_root: h256(0xf2),
        receipts_root: h256(0xf3),
        transactions: txs,
    }
}

/// A transaction inside the test block (whose hash is `h256(0x10)`).
fn tx(hash_byte: u8, index: u64, to: Option<Hash160>, input: Vec<u8>) -> TxData {
    TxData {
        hash: h256(hash_byte),
        block_hash: Some(h256(0x10)),
        transaction_index: Some(index),
        from: Some(h160(0x01)),
        to,
        input,
        value: U256::zero(),
    }
}

fn validator_info(index: u64, pubkey: Vec<u8>) -> ValidatorInfo {
    ValidatorInfo {
        index,
        balance: 32,
        status: "active_ongoing".to_string(),
        pubkey,
        withdrawal_credentials: h256(0x0b),
        effective_balance: 32,
        slashed: false,
        activation_eligibility_epoch: 0,
        activation_epoch: 0,
        exit_epoch: 0,
        withdrawable_epoch: 0,
    }
}

#[test]
fn deposit_call_input_decodes_to_its_pubkey() {
    let pk = vec![0xaa; 48];
    let input = deposit_input(&pk, &[0xbb; 32], &[0xcc; 96]);
    assert_eq!(decode_deposit_pubkey(&input), Some(pk));
    // A short input is never a deposit call.
    assert_eq!(decode_deposit_pubkey(&vec![0x22, 0x89]), None);
    // An unknown selector is never a deposit call.
    assert_eq!(decode_deposit_pubkey(&vec![0x01, 0x02, 0x03, 0x04, 0x05]), None);
}

#[test]
fn missed_slot_succeeds_and_writes_nothing() {
    let chain = ConsensusChain { head_height: 0, blocks: vec![None], validators: Some(vec![]) };
    let mut syncer = ConsensusSyncer::new(Store::new(), &chain);
    assert!(syncer.process_height(0).is_ok());
    assert_eq!(syncer.store.slots.len(), 0);
    assert!(Slot::get(&syncer.store, 0).is_err());
}

#[test]
fn pre_merge_slot_stores_null_execution_fields() {
    let chain = ConsensusChain {
        head_height: 0,
        blocks: vec![Some(beacon_block(None))],
        validators: Some(vec![]),
    };
    let mut syncer = ConsensusSyncer::new(Store::new(), &chain);
    assert!(syncer.process_height(0).is_ok());
    let row = Slot::get(&syncer.store, 0).unwrap();
    assert!(row.block_hash().is_none());
    assert_eq!(row.block_number(), None);
}

#[test]
fn rerunning_catch_up_keeps_the_first_write() {
    let chain = ConsensusChain {
        head_height: 1,
        blocks: vec![Some(beacon_block(Some((0x11, 7)))), Some(beacon_block(Some((0x12, 8))))],
        validators: Some(vec![]),
    };
    let mut syncer = ConsensusSyncer::new(Store::new(), &chain);
    assert_eq!(bump(&mut syncer, Some(0), 1).unwrap(), 1);
    assert_eq!(syncer.store.slots.len(), 2);
    // Re-run the same range: every write is skipped, nothing changes.
    assert_eq!(bump(&mut syncer, Some(0), 1).unwrap(), 1);
    assert_eq!(syncer.store.slots.len(), 2);
    let row = Slot::get(&syncer.store, 0).unwrap();
    assert!(row.block_hash().as_ref().unwrap().matches(&h256(0x11)));
    assert_eq!(row.block_number(), Some(7));
}

#[test]
fn bump_resumes_after_the_highest_stored_height() {
    let blocks = (0u64..4).map(|n| Some(beacon_block(Some((n as u8, n))))).collect();
    let chain = ConsensusChain { head_height: 3, blocks, validators: Some(vec![]) };
    let mut syncer = ConsensusSyncer::new(Store::new(), &chain);
    assert_eq!(bump(&mut syncer, None, 1).unwrap(), 1);
    assert_eq!(syncer.store.slots.len(), 2);
    // With no explicit start, the next run resumes at the stored head + 1.
    assert_eq!(bump(&mut syncer, None, 3).unwrap(), 3);
    assert_eq!(syncer.store.slots.len(), 4);
}

#[test]
fn missing_execution_block_is_reported() {
    let chain = ExecutionChain { head_height: 0, blocks: vec![None], receipts: vec![] };
    let mut syncer = ExecutionSyncer::new(Store::new(), &chain);
    let r = syncer.process_height(0);
    assert!(matches!(r, Err(Error::Sync(SyncError::NothingAtHeight(0)))));
}

#[test]
fn pending_execution_block_is_reported() {
    let mut block = exec_block(0x10, 0, vec![]);
    block.hash = None;
    let chain = ExecutionChain { head_height: 0, blocks: vec![Some(block)], receipts: vec![] };
    let mut syncer = ExecutionSyncer::new(Store::new(), &chain);
    let r = syncer.process_height(0);
    assert!(matches!(r, Err(Error::Sync(SyncError::PendingBlock(0)))));
}

#[test]
fn reprocessing_a_height_fails_loudly_and_changes_nothing() {
    let chain = ExecutionChain {
        head_height: 0,
        blocks: vec![Some(exec_block(0x10, 0, vec![tx(0x20, 0, Some(h160(9)), vec![])]))],
        receipts: vec![],
    };
    let mut syncer = ExecutionSyncer::new(Store::new(), &chain);
    assert!(syncer.process_height(0).is_ok());
    assert_eq!(syncer.store.blocks.len(), 1);
    assert_eq!(syncer.store.transactions.len(), 1);
    let r = syncer.process_height(0);
    assert!(matches!(r, Err(Error::Store(StoreError::DuplicateKey))));
    assert_eq!(syncer.store.blocks.len(), 1);
    assert_eq!(syncer.store.transactions.len(), 1);
}

#[test]
fn non_deposit_transaction_is_never_linked() {
    let t = tx(0x20, 0, Some(h160(9)), deposit_input(&[0xaa; 48], &[0xbb; 32], &[0xcc; 96]));
    let chain = ExecutionChain {
        head_height: 0,
        blocks: vec![Some(exec_block(0x10, 0, vec![t]))],
        receipts: vec![ReceiptEntry { hash: h256(0x20), receipt: Receipt { status: Some(1) } }],
    };
    let mut syncer = ExecutionSyncer::new(Store::new(), &chain);
    assert!(syncer.process_height(0).is_ok());
    let row = Transaction::get(&syncer.store, &h256(0x20)).unwrap();
    assert_eq!(row.status(), None);
}

#[test]
fn non_canonical_call_to_the_deposit_contract_is_a_non_event() {
    let t = tx(0x20, 0, Some(deposit_address()), vec![1, 2, 3, 4, 5]);
    let chain = ExecutionChain {
        head_height: 0,
        blocks: vec![Some(exec_block(0x10, 0, vec![t]))],
        receipts: vec![ReceiptEntry { hash: h256(0x20), receipt: Receipt { status: Some(1) } }],
    };
    let mut syncer = ExecutionSyncer::new(Store::new(), &chain);
    assert!(syncer.process_height(0).is_ok());
    assert_eq!(Transaction::get(&syncer.store, &h256(0x20)).unwrap().status(), None);
}

#[test]
fn deposit_call_links_its_validator() {
    let pk = vec![0xaa; 48];
    let t = tx(0x20, 0, Some(deposit_address()), deposit_input(&pk, &[0xbb; 32], &[0xcc; 96]));
    let consensus = ConsensusChain {
        head_height: 0,
        blocks: vec![None],
        validators: Some(vec![validator_info(7, pk.clone())]),
    };
    let execution = ExecutionChain {
        head_height: 0,
        blocks: vec![Some(exec_block(0x10, 0, vec![t]))],
        receipts: vec![ReceiptEntry { hash: h256(0x20), receipt: Receipt { status: Some(1) } }],
    };
    let mut store = Store::new();
    update_validators(&mut store, &consensus, 0).unwrap();
    let mut syncer = ExecutionSyncer::new(store, &execution);
    assert!(syncer.process_height(0).is_ok());
    // The transaction's status reflects its receipt's success bit.
    assert_eq!(Transaction::get(&syncer.store, &h256(0x20)).unwrap().status(), Some(true));
    // The validator registered by the decoded pubkey points at the call.
    let v = Validator::get(&syncer.store, 7).unwrap();
    assert!(v.deposit_transaction().as_ref().unwrap().matches(&h256(0x20)));
}

#[test]
fn failed_deposit_call_records_a_false_status() {
    let pk = vec![0xaa; 48];
    let t = tx(0x20, 0, Some(deposit_address()), deposit_input(&pk, &[0xbb; 32], &[0xcc; 96]));
    let execution = ExecutionChain {
        head_height: 0,
        blocks: vec![Some(exec_block(0x10, 0, vec![t]))],
        receipts: vec![ReceiptEntry { hash: h256(0x20), receipt: Receipt { status: Some(0) } }],
    };
    let mut syncer = ExecutionSyncer::new(Store::new(), &execution);
    assert!(syncer.process_height(0).is_ok());
    assert_eq!(Transaction::get(&syncer.store, &h256(0x20)).unwrap().status(), Some(false));
}

#[test]
fn no_validators_at_slot_is_reported() {
    let chain = ConsensusChain { head_height: 0, blocks: vec![None], validators: None };
    let mut store = Store::new();
    let r = update_validators(&mut store, &chain, 0);
    assert!(matches!(r, Err(Error::Sync(SyncError::NoValidators))));
}

#[test]
fn backfill_finds_the_latest_payload() {
    // Only height 5 carries a payload; heights 6..=9 do not.
    let mut blocks: Vec<Option<BeaconBlock>> = (0..10).map(|_| Some(beacon_block(None))).collect();
    blocks[5] = Some(beacon_block(Some((0x55, 77))));
    blocks[6] = None;
    let chain = ConsensusChain { head_height: 9, blocks, validators: Some(vec![]) };
    assert_eq!(find_last_exec_block(&chain, 9).unwrap(), 77);
}

#[test]
fn backfill_without_any_payload_returns_zero() {
    let blocks: Vec<Option<BeaconBlock>> = (0..4).map(|_| Some(beacon_block(None))).collect();
    let chain = ConsensusChain { head_height: 3, blocks, validators: Some(vec![]) };
    assert_eq!(find_last_exec_block(&chain, 3).unwrap(), 0);
}

#[test]
fn startup_validation_checks_each_condition() {
    let mainnet = "mainnet".to_string();
    let kiln = Some("kiln".to_string());
    assert!(validate_config(FIRST_SLOT_WITH_EXEC_BLOCK, &mainnet, &kiln).is_ok());
    assert!(matches!(
        validate_config(FIRST_SLOT_WITH_EXEC_BLOCK - 1, &mainnet, &kiln),
        Err(Error::PreMergeFreezeSlot)
    ));
    assert!(matches!(
        validate_config(FIRST_SLOT_WITH_EXEC_BLOCK, &"minimal".to_string(), &kiln),
        Err(Error::InvalidChainPreset(_))
    ));
    assert!(matches!(
        validate_config(FIRST_SLOT_WITH_EXEC_BLOCK, &mainnet, &None),
        Err(Error::MissingChainName)
    ));
    assert!(matches!(
        validate_config(FIRST_SLOT_WITH_EXEC_BLOCK, &mainnet, &Some("sepolia".to_string())),
        Err(Error::InvalidChainName)
    ));
}

/// Chain head at consensus height 100, merge at height 30 (payloads absent
/// below it), catch-up to height 50 over an empty store.
fn merged_chains() -> (ConsensusChain, ExecutionChain) {
    let blocks: Vec<Option<BeaconBlock>> = (0u64..=100)
        .map(|slot| {
            if slot < 30 {
                Some(beacon_block(None))
            } else {
                Some(beacon_block(Some((slot as u8, slot - 30))))
            }
        })
        .collect();
    let consensus = ConsensusChain { head_height: 100, blocks, validators: Some(vec![]) };
    let exec_blocks: Vec<Option<ExecBlockData>> =
        (0u64..=20).map(|n| Some(exec_block(0x80 + n as u8, n, vec![]))).collect();
    let execution = ExecutionChain { head_height: 20, blocks: exec_blocks, receipts: vec![] };
    (consensus, execution)
}

#[test]
fn bounded_mode_reaches_the_ceiling_and_stops() {
    let (consensus, execution) = merged_chains();
    let args = Args::new(None, None, 50);
    let (store, result) = run_bounded(&consensus, &execution, Store::new(), &args);
    assert!(result.is_ok());
    // 51 slot rows: 0 through 29 with null execution fields, 30 through 50
    // with the embedded payload reference.
    assert_eq!(store.slots.len(), 51);
    for slot in 0u64..=50 {
        let row = Slot::get(&store, slot).unwrap();
        if slot < 30 {
            assert!(row.block_hash().is_none());
            assert_eq!(row.block_number(), None);
        } else {
            assert!(row.block_hash().as_ref().unwrap().matches(&h256(slot as u8)));
            assert_eq!(row.block_number(), Some(slot - 30));
        }
    }
    assert_eq!(Slot::get_highest(&store).unwrap().height(), 50);
    // The execution layer was caught up to the backfill bound.
    assert_eq!(store.blocks.len(), 21);
}

#[test]
fn a_round_below_the_ceiling_reports_not_done() {
    let (mut consensus, execution) = merged_chains();
    consensus.head_height = 40;
    let args = Args::new(None, None, 50);
    let (store, result) = sync_round(&consensus, &execution, Store::new(), &args);
    assert_eq!(result.unwrap(), false);
    // The round still caught up to its target, the head height.
    assert_eq!(Slot::get_highest(&store).unwrap().height(), 40);
}

#[test]
fn args_expose_their_fields() {
    let args = Args::new(Some(3), None, 9);
    assert_eq!(args.from_slot(), Some(3));
    assert_eq!(args.from_block(), None);
    assert_eq!(args.freeze_at(), 9);
}

#[test]
fn a_poll_tick_at_the_head_is_a_no_op() {
    let blocks = (0u64..4).map(|n| Some(beacon_block(Some((n as u8, n))))).collect();
    let chain = ConsensusChain { head_height: 3, blocks, validators: Some(vec![]) };
    let mut syncer = ConsensusSyncer::new(Store::new(), &chain);
    assert_eq!(bump(&mut syncer, Some(0), 1).unwrap(), 1);
    assert_eq!(syncer.store.slots.len(), 2);
    // The resolved start (stored head + 1) equals the tick's ceiling: no-op.
    assert_eq!(poll_once(&mut syncer, None, 2).unwrap(), 2);
    assert_eq!(syncer.store.slots.len(), 2);
    // A higher ceiling triggers a catch-up on the next tick.
    assert_eq!(poll_once(&mut syncer, None, 3).unwrap(), 3);
    assert_eq!(syncer.store.slots.len(), 4);
}

#[test]
fn resolved_start_saturates_at_the_top_height() {
    let chain = ConsensusChain {
        head_height: 5,
        blocks: (0u64..6).map(|n| Some(beacon_block(Some((n as u8, n))))).collect(),
        validators: Some(vec![]),
    };
    let mut syncer = ConsensusSyncer::new(Store::new(), &chain);
    // Seed a row at the largest possible height: resolving the next start
    // must not wrap around to zero.
    assert_eq!(bump(&mut syncer, Some(u64::MAX), u64::MAX).unwrap(), u64::MAX);
    assert_eq!(syncer.store.slots.len(), 0);
    eth_parser::models::slots::NewSlot::new(u64::MAX, None, None)
        .insert_do_nothing(&mut syncer.store);
    assert_eq!(bump(&mut syncer, None, 5).unwrap(), 5);
    assert_eq!(syncer.store.slots.len(), 1);
}

#[test]
fn two_deposit_calls_in_one_block_are_both_linked() {
    let pk_a = vec![0xaa; 48];
    let pk_b = vec![0xbb; 48];
    let t_a = tx(0x20, 0, Some(deposit_address()), deposit_input(&pk_a, &[0x01; 32], &[0x02; 96]));
    let t_b = tx(0x21, 1, Some(deposit_address()), deposit_input(&pk_b, &[0x01; 32], &[0x02; 96]));
    let consensus = ConsensusChain {
        head_height: 0,
        blocks: vec![None],
        validators: Some(vec![validator_info(1, pk_a.clone()), validator_info(2, pk_b.clone())]),
    };
    let execution = ExecutionChain {
        head_height: 0,
        blocks: vec![Some(exec_block(0x10, 0, vec![t_a, t_b]))],
        receipts: vec![
            ReceiptEntry { hash: h256(0x20), receipt: Receipt { status: Some(1) } },
            ReceiptEntry { hash: h256(0x21), receipt: Receipt { status: Some(0) } },
        ],
    };
    let mut store = Store::new();
    update_validators(&mut store, &consensus, 0).unwrap();
    let mut syncer = ExecutionSyncer::new(store, &execution);
    assert!(syncer.process_height(0).is_ok());
    assert_eq!(Transaction::get(&syncer.store, &h256(0x20)).unwrap().status(), Some(true));
    assert_eq!(Transaction::get(&syncer.store, &h256(0x21)).unwrap().status(), Some(false));
    let va = Validator::get(&syncer.store, 1).unwrap();
    assert!(va.deposit_transaction().as_ref().unwrap().matches(&h256(0x20)));
    let vb = Validator::get(&syncer.store, 2).unwrap();
    assert!(vb.deposit_transaction().as_ref().unwrap().matches(&h256(0x21)));
}

#[test]
fn transaction_values_are_stored_little_endian() {
    let mut t = tx(0x20, 0, None, vec![]);
    t.value = U256 { limb0: 0x0102, limb1: 0, limb2: 0, limb3: 0 };
    let chain = ExecutionChain {
        head_height: 0,
        blocks: vec![Some(exec_block(0x10, 0, vec![t]))],
        receipts: vec![],
    };
    let mut syncer = ExecutionSyncer::new(Store::new(), &chain);
    assert!(syncer.process_height(0).is_ok());
    let mut expected = vec![0u8; 32];
    expected[0] = 0x02;
    expected[1] = 0x01;
    assert_eq!(syncer.store.transactions[0].value, expected);
}

#[test]
fn oversized_offset_words_are_not_a_deposit_call() {
    // The deposit selector followed by an offset word too large for the
    // decoder to take: refused as a non-deposit input, never decoded.
    let mut input = vec![0x22, 0x89, 0x51, 0x18];
    input.extend(vec![0xff; 32]);
    assert_eq!(decode_deposit_pubkey(&input), None);
}

#[test]
fn deposit_addressed_call_with_oversized_words_is_a_non_event() {
    let mut input = vec![0x22, 0x89, 0x51, 0x18];
    input.extend(vec![0xff; 32]);
    let t = tx(0x20, 0, Some(deposit_address()), input);
    let chain = ExecutionChain {
        head_height: 0,
        blocks: vec![Some(exec_block(0x10, 0, vec![t]))],
        receipts: vec![],
    };
    let mut syncer = ExecutionSyncer::new(Store::new(), &chain);
    assert!(syncer.process_height(0).is_ok());
    assert_eq!(Transaction::get(&syncer.store, &h256(0x20)).unwrap().status(), None);
}
