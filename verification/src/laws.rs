//! Properties of the indexer that relate several operations.
//!
//! Each public proof function states one guarantee of the pipeline over
//! the same specifications that the executable functions' contracts use:
//! re-running a catch-up never alters what is already stored, and the
//! deposit-linking step touches exactly the rows it names.

use vstd::prelude::*;

use crate::chain::{receipt_at, ConsensusChainV, ExecutionChainV, TxDataV};
use crate::codec::pubkey_hex_of;
use crate::models::slots::{has_slot, slot_at, unique_slot_heights};
use crate::models::transactions::{batch_insert_ok, has_transaction, with_status};
use crate::models::validators::{upsert_all, upsert_one, with_deposit, NewValidatorV, ValidatorV};
use crate::store::StoreV;
use crate::sync::consensus_layer::{consensus_step, ConsensusSyncer};
use crate::sync::execution_layer::{
    execution_step, execution_step_ok, link_all, link_one, new_tx_of_data, ExecutionSyncer,
};
use crate::sync::syncer::bump_range;
use crate::abi::{deposit_contract_address, spec_deposit_pubkey, spec_is_deposit_call};

verus! {

/// One consensus step preserves an existing slot row exactly, and keeps
/// heights unique.
proof fn lemma_consensus_step_preserves_slot(
    chain: ConsensusChainV,
    store: StoreV,
    processed: u64,
    h: u64,
)
    requires
        unique_slot_heights(store.slots),
        has_slot(store.slots, h),
    ensures
        unique_slot_heights(consensus_step(chain, store, processed).slots),
        has_slot(consensus_step(chain, store, processed).slots, h),
        slot_at(consensus_step(chain, store, processed).slots, h) == slot_at(store.slots, h),
{
    let r = consensus_step(chain, store, processed);
    if chain.block_at(processed) is Some && !has_slot(store.slots, processed) {
        let row = crate::models::slots::slot_of_new(
            crate::sync::consensus_layer::slot_row_of_block(chain, processed),
        );
        assert(r.slots == store.slots.push(row));
        assert(processed != h);
        assert forall|a: int, b: int| 0 <= a < b < r.slots.len() implies r.slots[a].height
            != r.slots[b].height by {
            if b < r.slots.len() - 1 {
            } else {
                assert(r.slots[b] == row);
                assert(!has_slot(store.slots, processed));
                assert(r.slots[a] == store.slots[a]);
            }
        }
        let w = choose|k: int| 0 <= k < store.slots.len() && store.slots[k].height == h;
        assert(r.slots[w].height == h);
        let w2 = choose|k: int| 0 <= k < r.slots.len() && r.slots[k].height == h;
        if w2 != w {
            if w2 == r.slots.len() - 1 {
                assert(r.slots[w2] == row);
                assert(false);
            } else {
                assert(store.slots[w2].height == h);
                assert(w2 < w || w < w2);
                assert(false);
            }
        }
    }
}

/// Re-running a consensus catch-up over any range never alters a slot row
/// that is already present: the first successful write for a height wins,
/// for good.
pub proof fn lemma_consensus_catch_up_idempotent(
    chain: ConsensusChainV,
    store: StoreV,
    from: int,
    upto: int,
    h: u64,
)
    requires
        unique_slot_heights(store.slots),
        has_slot(store.slots, h),
    ensures
        unique_slot_heights(bump_range::<ConsensusSyncer>(chain, store, from, upto).slots),
        has_slot(bump_range::<ConsensusSyncer>(chain, store, from, upto).slots, h),
        slot_at(bump_range::<ConsensusSyncer>(chain, store, from, upto).slots, h) == slot_at(
            store.slots,
            h,
        ),
    decreases upto - from,
{
    if from >= upto {
    } else {
        lemma_consensus_step_preserves_slot(chain, store, from as u64, h);
        lemma_consensus_catch_up_idempotent(
            chain,
            consensus_step(chain, store, from as u64),
            from + 1,
            upto,
            h,
        );
    }
}

/// The linking step never changes the shape of the store: slots and
/// blocks are untouched, transaction hashes and validator public keys
/// survive, and a validator row differs from its original at most in its
/// deposit link.
proof fn lemma_link_all_shape(chain: ExecutionChainV, store: StoreV, txs: Seq<TxDataV>)
    ensures
        link_all(chain, store, txs).slots == store.slots,
        link_all(chain, store, txs).blocks == store.blocks,
        link_all(chain, store, txs).transactions.len() == store.transactions.len(),
        forall|k: int|
            0 <= k < store.transactions.len() ==> (#[trigger] link_all(
                chain,
                store,
                txs,
            ).transactions[k]).hash == store.transactions[k].hash,
        link_all(chain, store, txs).validators.len() == store.validators.len(),
        forall|k: int|
            0 <= k < store.validators.len() ==> (#[trigger] link_all(
                chain,
                store,
                txs,
            ).validators[k]).pubkey == store.validators[k].pubkey,
        forall|k: int, x: Seq<u8>|
            0 <= k < store.validators.len() ==> #[trigger] with_deposit(
                link_all(chain, store, txs).validators[k],
                x,
            ) == with_deposit(store.validators[k], x),
    decreases txs.len(),
{
    if txs.len() == 0 {
    } else {
        lemma_link_all_shape(chain, store, txs.drop_last());
    }
}

/// The linking step leaves any transaction row untouched whose hash no
/// deposit-addressed transaction of the block carries.
proof fn lemma_link_all_preserves_row(
    chain: ExecutionChainV,
    store: StoreV,
    txs: Seq<TxDataV>,
    k: int,
)
    requires
        0 <= k < store.transactions.len(),
        forall|j: int|
            0 <= j < txs.len() && (#[trigger] txs[j]).to == Some(deposit_contract_address())
                ==> txs[j].hash != store.transactions[k].hash,
    ensures
        link_all(chain, store, txs).transactions.len() == store.transactions.len(),
        link_all(chain, store, txs).transactions[k] == store.transactions[k],
    decreases txs.len(),
{
    if txs.len() == 0 {
    } else {
        lemma_link_all_preserves_row(chain, store, txs.drop_last(), k);
        lemma_link_all_shape(chain, store, txs.drop_last());
    }
}

/// Whether `t` is a deposit call that registers a key stored under the
/// hex form `pkhex`.
pub open spec fn relinks_key(t: TxDataV, pkhex: Seq<char>) -> bool {
    t.to == Some(deposit_contract_address()) && match spec_deposit_pubkey(t.input) {
        Some(pk2) => pubkey_hex_of(pk2) == pkhex,
        None => false,
    }
}

/// After the linking step runs over a block containing one deposit call
/// `txs[i]` (no other transaction shares its hash, and no later deposit
/// call registers the same key), the call's row carries its receipt's
/// success bit and every validator row under the registered key points at
/// the call.
proof fn lemma_link_all_deposit(chain: ExecutionChainV, store: StoreV, txs: Seq<TxDataV>, i: int)
    requires
        0 <= i < txs.len(),
        txs[i].to == Some(deposit_contract_address()),
        spec_deposit_pubkey(txs[i].input) is Some,
        forall|j: int| 0 <= j < txs.len() && j != i ==> (#[trigger] txs[j]).hash != txs[i].hash,
        forall|j: int|
            i < j < txs.len() ==> !relinks_key(
                #[trigger] txs[j],
                pubkey_hex_of(spec_deposit_pubkey(txs[i].input).unwrap()),
            ),
    ensures
        link_all(chain, store, txs).transactions.len() == store.transactions.len(),
        forall|k: int|
            0 <= k < store.transactions.len() && (#[trigger] store.transactions[k]).hash
                == txs[i].hash ==> link_all(chain, store, txs).transactions[k] == with_status(
                store.transactions[k],
                receipt_at(chain.receipts, txs[i].hash).spec_success(),
            ),
        link_all(chain, store, txs).validators.len() == store.validators.len(),
        forall|k: int|
            0 <= k < store.validators.len() && (#[trigger] store.validators[k]).pubkey
                == pubkey_hex_of(spec_deposit_pubkey(txs[i].input).unwrap()) ==> link_all(
                chain,
                store,
                txs,
            ).validators[k] == with_deposit(store.validators[k], txs[i].hash),
    decreases txs.len(),
{
    let prefix = txs.drop_last();
    let last = txs.last();
    let pre = link_all(chain, store, prefix);
    let pkhex = pubkey_hex_of(spec_deposit_pubkey(txs[i].input).unwrap());
    if i == txs.len() - 1 {
        lemma_link_all_shape(chain, store, prefix);
        assert forall|k: int|
            0 <= k < store.transactions.len() && (#[trigger] store.transactions[k]).hash
                == txs[i].hash implies link_all(chain, store, txs).transactions[k] == with_status(
            store.transactions[k],
            receipt_at(chain.receipts, txs[i].hash).spec_success(),
        ) by {
            lemma_link_all_preserves_row(chain, store, prefix, k);
            assert(pre.transactions[k] == store.transactions[k]);
            assert(link_one(chain, pre, last).transactions[k] == with_status(
                pre.transactions[k],
                receipt_at(chain.receipts, txs[i].hash).spec_success(),
            ));
        }
        assert forall|k: int|
            0 <= k < store.validators.len() && (#[trigger] store.validators[k]).pubkey
                == pkhex implies link_all(chain, store, txs).validators[k] == with_deposit(
            store.validators[k],
            txs[i].hash,
        ) by {
            assert(pre.validators[k].pubkey == store.validators[k].pubkey);
            assert(link_one(chain, pre, last).validators[k] == with_deposit(
                pre.validators[k],
                txs[i].hash,
            ));
            assert(with_deposit(pre.validators[k], txs[i].hash) == with_deposit(
                store.validators[k],
                txs[i].hash,
            ));
        }
    } else {
        lemma_link_all_deposit(chain, store, prefix, i);
        lemma_link_all_shape(chain, store, prefix);
        assert forall|k: int|
            0 <= k < store.transactions.len() && (#[trigger] store.transactions[k]).hash
                == txs[i].hash implies link_all(chain, store, txs).transactions[k]
            == with_status(
            store.transactions[k],
            receipt_at(chain.receipts, txs[i].hash).spec_success(),
        ) by {
            assert(pre.transactions[k] == with_status(
                store.transactions[k],
                receipt_at(chain.receipts, txs[i].hash).spec_success(),
            ));
            assert(pre.transactions[k].hash == store.transactions[k].hash);
            assert(last.hash != txs[i].hash);
        }
        assert forall|k: int|
            0 <= k < store.validators.len() && (#[trigger] store.validators[k]).pubkey
                == pkhex implies link_all(chain, store, txs).validators[k] == with_deposit(
            store.validators[k],
            txs[i].hash,
        ) by {
            assert(pre.validators[k] == with_deposit(store.validators[k], txs[i].hash));
            assert(pre.validators[k].pubkey == store.validators[k].pubkey);
            assert(!relinks_key(last, pkhex));
        }
    }
}

/// A transaction not addressed to the deposit contract is never linked:
/// after its block is processed, its stored status is still absent.
pub proof fn lemma_non_deposit_status_absent(
    chain: ExecutionChainV,
    store: StoreV,
    height: u64,
    i: int,
)
    requires
        execution_step_ok(chain, store, height),
        !has_transaction(store.transactions, chain.block_at(height).unwrap().transactions[i].hash),
        0 <= i < chain.block_at(height).unwrap().transactions.len(),
        chain.block_at(height).unwrap().transactions[i].to != Some(deposit_contract_address()),
    ensures
        forall|k: int|
            0 <= k < execution_step(chain, store, height).transactions.len()
                && (#[trigger] execution_step(chain, store, height).transactions[k]).hash
                == chain.block_at(height).unwrap().transactions[i].hash ==> execution_step(
                chain,
                store,
                height,
            ).transactions[k].status is None,
{
    let b = chain.block_at(height).unwrap();
    let t = b.transactions[i];
    let rows = b.transactions.map_values(|t: TxDataV| new_tx_of_data(t));
    let mid = StoreV {
        blocks: store.blocks.push(crate::sync::execution_layer::block_row_of_data(b)),
        transactions: store.transactions + rows.map_values(
            |n: crate::models::transactions::NewTransactionV|
                crate::models::transactions::transaction_of_new(n),
        ),
        ..store
    };
    assert(execution_step(chain, store, height) == link_all(chain, mid, b.transactions));
    lemma_link_all_shape(chain, mid, b.transactions);
    assert forall|k: int|
        0 <= k < execution_step(chain, store, height).transactions.len() && (#[trigger] execution_step(
            chain,
            store,
            height,
        ).transactions[k]).hash == t.hash implies execution_step(
        chain,
        store,
        height,
    ).transactions[k].status is None by {
        assert(mid.transactions[k].hash == t.hash);
        assert forall|j: int|
            0 <= j < b.transactions.len() && (#[trigger] b.transactions[j]).to == Some(
                deposit_contract_address(),
            ) implies b.transactions[j].hash != mid.transactions[k].hash by {
            if b.transactions[j].hash == t.hash {
                if j != i {
                    assert(rows[j].hash != rows[i].hash);
                    assert(false);
                } else {
                    assert(b.transactions[j].to != Some(deposit_contract_address()));
                }
            }
        }
        lemma_link_all_preserves_row(chain, mid, b.transactions, k);
        assert(link_all(chain, mid, b.transactions).transactions[k] == mid.transactions[k]);
        assert(mid.transactions[k].status is None) by {
            let olen = store.transactions.len() as int;
            if k < olen {
                assert(store.transactions[k].hash == t.hash);
                assert(has_transaction(store.transactions, t.hash));
                assert(rows[i].hash == t.hash);
                assert(!batch_insert_ok(store.transactions, rows) ==> false);
                assert(false);
            } else {
                assert(mid.transactions[k] == crate::models::transactions::transaction_of_new(
                    rows[k - olen],
                ));
            }
        }
    }
}

/// A deposit-contract call whose input decodes as a deposit call
/// registering a key: after its block is processed (and when no other
/// transaction of the block shares its hash or re-registers the same
/// key), the call's stored status is exactly its receipt's success bit,
/// and every validator row stored under the registered key — in
/// particular the unique such row, when exactly one exists — points at
/// this call.
pub proof fn lemma_deposit_link(chain: ExecutionChainV, store: StoreV, height: u64, i: int)
    requires
        execution_step_ok(chain, store, height),
        0 <= i < chain.block_at(height).unwrap().transactions.len(),
        chain.block_at(height).unwrap().transactions[i].to == Some(deposit_contract_address()),
        spec_deposit_pubkey(chain.block_at(height).unwrap().transactions[i].input) is Some,
        forall|j: int|
            i < j < chain.block_at(height).unwrap().transactions.len() ==> !relinks_key(
                #[trigger] chain.block_at(height).unwrap().transactions[j],
                pubkey_hex_of(
                    spec_deposit_pubkey(
                        chain.block_at(height).unwrap().transactions[i].input,
                    ).unwrap(),
                ),
            ),
    ensures
        forall|k: int|
            0 <= k < execution_step(chain, store, height).transactions.len()
                && (#[trigger] execution_step(chain, store, height).transactions[k]).hash
                == chain.block_at(height).unwrap().transactions[i].hash ==> execution_step(
                chain,
                store,
                height,
            ).transactions[k].status == Some(
                receipt_at(
                    chain.receipts,
                    chain.block_at(height).unwrap().transactions[i].hash,
                ).spec_success(),
            ),
        forall|k: int|
            0 <= k < execution_step(chain, store, height).validators.len()
                && (#[trigger] execution_step(chain, store, height).validators[k]).pubkey
                == pubkey_hex_of(
                spec_deposit_pubkey(chain.block_at(height).unwrap().transactions[i].input).unwrap(),
            ) ==> execution_step(chain, store, height).validators[k].deposit_transaction == Some(
                chain.block_at(height).unwrap().transactions[i].hash,
            ),
{
    let b = chain.block_at(height).unwrap();
    let t = b.transactions[i];
    let pkhex = pubkey_hex_of(spec_deposit_pubkey(t.input).unwrap());
    let succ = receipt_at(chain.receipts, t.hash).spec_success();
    let rows = b.transactions.map_values(|t: TxDataV| new_tx_of_data(t));
    let mid = StoreV {
        blocks: store.blocks.push(crate::sync::execution_layer::block_row_of_data(b)),
        transactions: store.transactions + rows.map_values(
            |n: crate::models::transactions::NewTransactionV|
                crate::models::transactions::transaction_of_new(n),
        ),
        ..store
    };
    let r = execution_step(chain, store, height);
    assert(r == link_all(chain, mid, b.transactions));
    assert forall|j: int|
        0 <= j < b.transactions.len() && j != i implies (#[trigger] b.transactions[j]).hash
        != t.hash by {
        assert(rows[j].hash == b.transactions[j].hash);
        assert(rows[i].hash == t.hash);
        assert(rows[j].hash != rows[i].hash);
    }
    lemma_link_all_deposit(chain, mid, b.transactions, i);
    lemma_link_all_shape(chain, mid, b.transactions);
    assert forall|k: int|
        0 <= k < r.transactions.len() && (#[trigger] r.transactions[k]).hash == t.hash implies r.transactions[k].status
        == Some(succ) by {
        assert(mid.transactions[k].hash == t.hash);
        assert(r.transactions[k] == with_status(mid.transactions[k], succ));
    }
    assert forall|k: int|
        0 <= k < r.validators.len() && (#[trigger] r.validators[k]).pubkey == pkhex implies r.validators[k].deposit_transaction
        == Some(t.hash) by {
        assert(mid.validators[k].pubkey == pkhex);
        assert(r.validators[k] == with_deposit(mid.validators[k], t.hash));
    }
}

/// One execution step never alters an existing block or transaction row:
/// a duplicate is refused with the store unchanged, and a fresh block
/// only appends.
proof fn lemma_execution_step_appends(chain: ExecutionChainV, store: StoreV, height: u64)
    ensures
        execution_step(chain, store, height).blocks.len() >= store.blocks.len(),
        forall|k: int|
            0 <= k < store.blocks.len() ==> (#[trigger] execution_step(
                chain,
                store,
                height,
            ).blocks[k]) == store.blocks[k],
        execution_step(chain, store, height).transactions.len() >= store.transactions.len(),
        forall|k: int|
            0 <= k < store.transactions.len() ==> (#[trigger] execution_step(
                chain,
                store,
                height,
            ).transactions[k]) == store.transactions[k],
{
    let r = execution_step(chain, store, height);
    match chain.block_at(height) {
        None => {},
        Some(b) => {
            if !b.pending() {
                let newb = crate::sync::execution_layer::block_row_of_data(b);
                let rows = b.transactions.map_values(|t: TxDataV| new_tx_of_data(t));
                if !(crate::models::execution_blocks::has_block_hash(store.blocks, newb.hash)
                    || crate::models::execution_blocks::has_block_number(store.blocks, newb.number)
                    || !batch_insert_ok(store.transactions, rows)) {
                    let mid = StoreV {
                        blocks: store.blocks.push(newb),
                        transactions: store.transactions + rows.map_values(
                            |n: crate::models::transactions::NewTransactionV|
                                crate::models::transactions::transaction_of_new(n),
                        ),
                        ..store
                    };
                    lemma_link_all_shape(chain, mid, b.transactions);
                    assert forall|k: int|
                        0 <= k < store.transactions.len() implies (#[trigger] r.transactions[k])
                        == store.transactions[k] by {
                        assert forall|j: int|
                            0 <= j < b.transactions.len() && (#[trigger] b.transactions[j]).to
                                == Some(deposit_contract_address()) implies b.transactions[j].hash
                            != mid.transactions[k].hash by {
                            assert(rows[j].hash == b.transactions[j].hash);
                            assert(!has_transaction(store.transactions, rows[j].hash));
                            assert(mid.transactions[k] == store.transactions[k]);
                        }
                        lemma_link_all_preserves_row(chain, mid, b.transactions, k);
                    }
                }
            }
        },
    }
}

/// Re-running an execution catch-up over any range never alters a block
/// or transaction row that is already present: duplicates are refused
/// loudly and fresh rows are only appended.
pub proof fn lemma_execution_catch_up_appends(
    chain: ExecutionChainV,
    store: StoreV,
    from: int,
    upto: int,
)
    ensures
        bump_range::<ExecutionSyncer>(chain, store, from, upto).blocks.len() >= store.blocks.len(),
        forall|k: int|
            0 <= k < store.blocks.len() ==> (#[trigger] bump_range::<ExecutionSyncer>(
                chain,
                store,
                from,
                upto,
            ).blocks[k]) == store.blocks[k],
        bump_range::<ExecutionSyncer>(chain, store, from, upto).transactions.len()
            >= store.transactions.len(),
        forall|k: int|
            0 <= k < store.transactions.len() ==> (#[trigger] bump_range::<ExecutionSyncer>(
                chain,
                store,
                from,
                upto,
            ).transactions[k]) == store.transactions[k],
    decreases upto - from,
{
    if from >= upto {
    } else {
        lemma_execution_step_appends(chain, store, from as u64);
        lemma_execution_catch_up_appends(
            chain,
            execution_step(chain, store, from as u64),
            from + 1,
            upto,
        );
    }
}

/// Re-processing a height whose block the store already holds fails
/// loudly and changes nothing: a strict insert never silently duplicates
/// or corrupts.
pub proof fn lemma_execution_step_refuses_duplicate(
    chain: ExecutionChainV,
    store: StoreV,
    height: u64,
)
    requires
        chain.block_at(height) matches Some(b) && !b.pending() && (
        crate::models::execution_blocks::has_block_hash(store.blocks, b.hash.unwrap())
            || crate::models::execution_blocks::has_block_number(store.blocks, b.number.unwrap())),
    ensures
        execution_step(chain, store, height) == store,
        !execution_step_ok(chain, store, height),
{
}

/// A consensus step never removes a slot row.
proof fn lemma_consensus_step_monotone(
    chain: ConsensusChainV,
    store: StoreV,
    processed: u64,
    h: u64,
)
    requires
        has_slot(store.slots, h),
    ensures
        has_slot(consensus_step(chain, store, processed).slots, h),
{
    let r = consensus_step(chain, store, processed);
    let w = choose|k: int| 0 <= k < store.slots.len() && store.slots[k].height == h;
    assert(r.slots[w].height == h);
}

/// A consensus catch-up covers its range: every height inside it at which
/// the chain shows a block has a slot row afterwards.
pub proof fn lemma_consensus_catch_up_covers(
    chain: ConsensusChainV,
    store: StoreV,
    from: int,
    upto: int,
    h: u64,
)
    requires
        from <= h < upto,
        upto <= 0x1_0000_0000_0000_0000,
        chain.block_at(h) is Some,
    ensures
        has_slot(bump_range::<ConsensusSyncer>(chain, store, from, upto).slots, h),
    decreases upto - from,
{
    let stepped = consensus_step(chain, store, from as u64);
    if from == h {
        assert(has_slot(stepped.slots, h)) by {
            if !has_slot(store.slots, h) {
                let r = stepped;
                assert(r.slots.last().height == h);
            } else {
                lemma_consensus_step_monotone(chain, store, h, h);
            }
        }
        lemma_consensus_catch_up_monotone(chain, stepped, from + 1, upto, h);
    } else {
        lemma_consensus_catch_up_covers(chain, stepped, from + 1, upto, h);
    }
}

/// A consensus catch-up never removes a slot row.
pub proof fn lemma_consensus_catch_up_monotone(
    chain: ConsensusChainV,
    store: StoreV,
    from: int,
    upto: int,
    h: u64,
)
    requires
        has_slot(store.slots, h),
    ensures
        has_slot(bump_range::<ConsensusSyncer>(chain, store, from, upto).slots, h),
    decreases upto - from,
{
    if from >= upto {
    } else {
        lemma_consensus_step_monotone(chain, store, from as u64, h);
        lemma_consensus_catch_up_monotone(
            chain,
            consensus_step(chain, store, from as u64),
            from + 1,
            upto,
            h,
        );
    }
}

/// One merged record never disturbs another row, and never touches a
/// row's immutable fields.
proof fn lemma_upsert_one_immutable_fields(s: Seq<ValidatorV>, n: NewValidatorV, k: int)
    requires
        0 <= k < s.len(),
    ensures
        upsert_one(s, n).len() >= s.len(),
        upsert_one(s, n)[k].index == s[k].index,
        upsert_one(s, n)[k].deposit_transaction == s[k].deposit_transaction,
        upsert_one(s, n)[k].activation_eligibility_epoch == s[k].activation_eligibility_epoch,
        upsert_one(s, n)[k].activation_epoch == s[k].activation_epoch,
        upsert_one(s, n)[k].exit_epoch == s[k].exit_epoch,
        upsert_one(s, n)[k].withdrawable_epoch == s[k].withdrawable_epoch,
{
}

/// A validator refresh merges only the mutable fields: for every row that
/// was already stored, the index, the epoch fields and the deposit link
/// survive any batch, whatever it holds.
pub proof fn lemma_refresh_preserves_immutable_fields(
    s: Seq<ValidatorV>,
    batch: Seq<NewValidatorV>,
    k: int,
)
    requires
        0 <= k < s.len(),
    ensures
        upsert_all(s, batch).len() >= s.len(),
        upsert_all(s, batch)[k].index == s[k].index,
        upsert_all(s, batch)[k].deposit_transaction == s[k].deposit_transaction,
        upsert_all(s, batch)[k].activation_eligibility_epoch == s[k].activation_eligibility_epoch,
        upsert_all(s, batch)[k].activation_epoch == s[k].activation_epoch,
        upsert_all(s, batch)[k].exit_epoch == s[k].exit_epoch,
        upsert_all(s, batch)[k].withdrawable_epoch == s[k].withdrawable_epoch,
    decreases batch.len(),
{
    if batch.len() == 0 {
    } else {
        lemma_refresh_preserves_immutable_fields(s, batch.drop_last(), k);
        lemma_upsert_one_immutable_fields(upsert_all(s, batch.drop_last()), batch.last(), k);
    }
}

} // verus!
