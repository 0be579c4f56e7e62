//! The execution-layer adapter: persists blocks with their transactions
//! and drives the deposit-linking sub-pipeline.
//!
//! A fetched block without a hash or number is pending — a retryable
//! error distinct from "not found".  A block and its transactions are
//! persisted as one atomic strict insert.  Every transaction addressed to
//! the fixed deposit contract then goes through the linking step: decode
//! the input as a deposit call, confirm the transaction's success from
//! its receipt, and point the registered validator's row at it.

use vstd::prelude::*;

use crate::abi::{
    decode_deposit_call, deposit_contract_address, deposit_contract_address_bytes,
    spec_deposit_pubkey, spec_is_deposit_call,
};
use crate::chain::{
    block_txs_have_receipts, has_receipt, receipt_at, ExecBlockDataV, ExecutionChain,
    ExecutionChainV, TxData, TxDataV,
};
use crate::codec::{pubkey_hex, pubkey_hex_of, u256_le_bytes};
use crate::error::{Error, StoreError, SyncError};
use crate::models::execution_blocks::{
    has_block_hash, has_block_number, ExecBlock, ExecBlockV, NewExecBlock,
};
use crate::models::transactions::{
    batch_insert_ok, set_status_spec, transaction_of_new, NewTransaction, NewTransactionV,
    NewTransactions,
};
use crate::models::validators::{set_deposit_spec, NewValidator};
use crate::store::{Store, StoreV};
use crate::sync::syncer::DbSyncer;
use crate::primitives::{clone_bytes, clone_opt_hash160, Hash256};

verus! {

/// The greatest block number among the block rows (zero for an empty
/// table).
pub open spec fn max_block_number(s: Seq<ExecBlockV>) -> u64
    decreases s.len(),
{
    if s.len() == 0 {
        0
    } else {
        let m = max_block_number(s.drop_last());
        if s.last().number > m {
            s.last().number
        } else {
            m
        }
    }
}

/// In a non-empty table the greatest number is attained, and bounds every
/// row's number.
pub proof fn lemma_max_block_number(s: Seq<ExecBlockV>)
    requires
        s.len() > 0,
    ensures
        has_block_number(s, max_block_number(s)),
        forall|i: int| 0 <= i < s.len() ==> (#[trigger] s[i]).number <= max_block_number(s),
    decreases s.len(),
{
    let t = s.drop_last();
    if s.len() == 1 {
        assert(s[0].number == max_block_number(s));
    } else {
        lemma_max_block_number(t);
        let w = choose|i: int| 0 <= i < t.len() && t[i].number == max_block_number(t);
        assert(s[w] == t[w]);
        if s.last().number > max_block_number(t) {
            assert(s[s.len() - 1].number == max_block_number(s));
        } else {
            assert(s[w].number == max_block_number(s));
        }
        assert forall|i: int| 0 <= i < s.len() implies (#[trigger] s[i]).number <= max_block_number(
            s,
        ) by {
            if i < s.len() - 1 {
                assert(t[i] == s[i]);
            }
        }
    }
}

/// The insertable transaction a fetched transaction maps to, meaningful
/// when the transaction's inclusion data is present.
pub open spec fn new_tx_of_data(t: TxDataV) -> NewTransactionV
    recommends
        t.block_hash is Some,
        t.transaction_index is Some,
{
    NewTransactionV {
        hash: t.hash,
        block_hash: t.block_hash.unwrap(),
        index: t.transaction_index.unwrap(),
        from: t.from,
        to: t.to,
        input: t.input,
        value: u256_le_bytes(t.value),
    }
}

/// The block row a fetched non-pending block maps to.
pub open spec fn block_row_of_data(b: ExecBlockDataV) -> ExecBlockV
    recommends
        !b.pending(),
{
    ExecBlockV {
        hash: b.hash.unwrap(),
        number: b.number.unwrap(),
        parent_hash: b.parent_hash,
        state_root: b.state_root,
        transactions_root: b.transactions_root,
        receipts_root: b.receipts_root,
    }
}

/// The store after the linking step runs on one transaction whose
/// recipient is the deposit contract: when the input decodes as a call to
/// the deposit function, the transaction's status is set from its
/// receipt's success bit; when the decoded call also carries a readable
/// public key, every validator row stored under that key is pointed at
/// the transaction.  An input that does not decode as a deposit call is a
/// non-event.
pub open spec fn link_decoded(chain: ExecutionChainV, store: StoreV, t: TxDataV) -> StoreV {
    if spec_is_deposit_call(t.input) {
        let confirmed = StoreV {
            transactions: set_status_spec(
                store.transactions,
                t.hash,
                receipt_at(chain.receipts, t.hash).spec_success(),
            ),
            ..store
        };
        match spec_deposit_pubkey(t.input) {
            Some(pk) => StoreV {
                validators: set_deposit_spec(confirmed.validators, pubkey_hex_of(pk), t.hash),
                ..confirmed
            },
            None => confirmed,
        }
    } else {
        store
    }
}

/// The store after one transaction's linking decision: only transactions
/// addressed to the deposit contract are linked at all.
pub open spec fn link_one(chain: ExecutionChainV, store: StoreV, t: TxDataV) -> StoreV {
    if t.to == Some(deposit_contract_address()) {
        link_decoded(chain, store, t)
    } else {
        store
    }
}

/// The store after the linking step has run over a block's transactions,
/// first transaction first.
pub open spec fn link_all(chain: ExecutionChainV, store: StoreV, txs: Seq<TxDataV>) -> StoreV
    decreases txs.len(),
{
    if txs.len() == 0 {
        store
    } else {
        link_one(chain, link_all(chain, store, txs.drop_last()), txs.last())
    }
}

/// The store after the execution adapter processes one height: nothing
/// changes unless the chain shows a non-pending block there whose rows do
/// not conflict with the store; then the block row and all its
/// transaction rows are appended atomically and the linking step runs
/// over the block's transactions.
pub open spec fn execution_step(chain: ExecutionChainV, store: StoreV, height: u64) -> StoreV {
    match chain.block_at(height) {
        None => store,
        Some(b) => {
            if b.pending() {
                store
            } else {
                let newb = block_row_of_data(b);
                let rows = b.transactions.map_values(|t: TxDataV| new_tx_of_data(t));
                if has_block_hash(store.blocks, newb.hash) || has_block_number(
                    store.blocks,
                    newb.number,
                ) || !batch_insert_ok(store.transactions, rows) {
                    store
                } else {
                    let mid = StoreV {
                        blocks: store.blocks.push(newb),
                        transactions: store.transactions + rows.map_values(
                            |t: NewTransactionV| transaction_of_new(t),
                        ),
                        ..store
                    };
                    link_all(chain, mid, b.transactions)
                }
            }
        },
    }
}

/// Whether processing one height succeeds: the chain shows a non-pending
/// block whose rows are all new to the store.
pub open spec fn execution_step_ok(chain: ExecutionChainV, store: StoreV, height: u64) -> bool {
    match chain.block_at(height) {
        None => false,
        Some(b) => {
            if b.pending() {
                false
            } else {
                let newb = block_row_of_data(b);
                let rows = b.transactions.map_values(|t: TxDataV| new_tx_of_data(t));
                !(has_block_hash(store.blocks, newb.hash) || has_block_number(
                    store.blocks,
                    newb.number,
                ) || !batch_insert_ok(store.transactions, rows))
            }
        },
    }
}

/// The error a failed height reports: no block at the height, a pending
/// block, or a duplicate key on the strict insert.
pub open spec fn execution_step_err(chain: ExecutionChainV, store: StoreV, height: u64) -> Error {
    match chain.block_at(height) {
        None => Error::Sync(SyncError::NothingAtHeight(height)),
        Some(b) => {
            if b.pending() {
                Error::Sync(SyncError::PendingBlock(height))
            } else {
                Error::Store(StoreError::DuplicateKey)
            }
        },
    }
}

/// Check transaction status on its receipt.
///
/// Defined behavior only for an included transaction: the receipt and its
/// status bit must exist, which holds of every transaction inside a
/// non-pending fetched block.
pub fn is_transaction_successful(client: &ExecutionChain, transaction_hash: &Hash256) -> (r: Result<
    bool,
    Error,
>)
    requires
        client.wf(),
        has_receipt(client@.receipts, transaction_hash@),
        receipt_at(client@.receipts, transaction_hash@).status is Some,
    ensures
        r == Ok::<bool, Error>(receipt_at(client@.receipts, transaction_hash@).spec_success()),
{
    let receipt = match client.get_transaction_receipt(transaction_hash) {
        Some(rc) => rc,
        None => {
            proof {
                assert(false);
            }
            return Err(Error::Sync(SyncError::NoValidators));
        },
    };
    let status = match receipt.status {
        Some(s) => s,
        None => {
            proof {
                assert(false);
            }
            return Err(Error::Sync(SyncError::NoValidators));
        },
    };
    Ok(status != 0)
}

/// Create the link between a validator and the successful deposit-contract
/// call that registered it.
///
/// When the transaction's input decodes as a call to the deposit
/// function: its success is confirmed from its receipt and its stored
/// status is set; when the decoded call also carries a readable public
/// key, every validator row whose stored public key is the hex form of
/// that key is pointed at this transaction.  A row count other than
/// exactly one is a data-consistency anomaly, reported by the
/// affected-row count in the store and never fatal.  An input that is not
/// a deposit call is a non-event.
pub fn link_validator_to_depositor(
    client: &ExecutionChain,
    store: &mut Store,
    transaction: &TxData,
) -> (r: Result<(), Error>)
    requires
        old(store).wf(),
        client.wf(),
        transaction@.hash.len() == 32,
        spec_is_deposit_call(transaction@.input) ==> has_receipt(
            client@.receipts,
            transaction@.hash,
        ) && receipt_at(client@.receipts, transaction@.hash).status is Some,
    ensures
        final(store).wf(),
        final(store)@ == link_decoded(client@, old(store)@, transaction@),
        r is Ok,
{
    let pk_opt = match decode_deposit_call(&transaction.input) {
        Some(first) => first,
        None => {
            return Ok(());
        },
    };
    let status = match is_transaction_successful(client, &transaction.hash) {
        Ok(s) => s,
        Err(e) => {
            proof {
                assert(false);
            }
            return Err(e);
        },
    };
    let _ = NewTransaction::set_status(store, &transaction.hash, status);
    let pk = match pk_opt {
        Some(b) => b,
        None => {
            // A deposit call whose registered key could not be read:
            // confirmed, but nothing to link.
            proof {
                assert(store@ =~= link_decoded(client@, old(store)@, transaction@));
            }
            return Ok(());
        },
    };
    let pubkey = pubkey_hex(&pk);
    let _rows = match NewValidator::set_deposit_transaction(store, &pubkey, &transaction.hash) {
        Ok(n) => n,
        Err(e) => {
            proof {
                assert(false);
            }
            return Err(Error::Store(e));
        },
    };
    proof {
        assert(spec_deposit_pubkey(transaction@.input) == Some(pk@));
        assert(pubkey@ == pubkey_hex_of(pk@));
        assert(store@ =~= link_decoded(client@, old(store)@, transaction@));
    }
    Ok(())
}

/// The highest execution block number present in the store's blocks
/// table.
pub open spec fn execution_db_height(store: StoreV) -> Option<u64> {
    if store.blocks.len() == 0 {
        None
    } else {
        Some(max_block_number(store.blocks))
    }
}

/// The execution-layer syncer: the store it writes and the chain it
/// reads.
pub struct ExecutionSyncer<'a> {
    pub store: Store,
    pub client: &'a ExecutionChain,
}

impl<'a> ExecutionSyncer<'a> {
    pub fn new(store: Store, client: &'a ExecutionChain) -> (r: ExecutionSyncer<'a>)
        ensures
            r.store == store,
            r.client == client,
    {
        ExecutionSyncer { store, client }
    }

    /// Process one execution height: fetch the block with full
    /// transaction bodies, reject pending blocks, persist the block and
    /// its transactions as one atomic strict insert, then run the
    /// deposit-linking step over the block's transactions; the step
    /// completes only when every linking step has.
    pub fn process_height(&mut self, height: u64) -> (r: Result<(), Error>)
        requires
            old(self).inv(),
        ensures
            final(self).inv(),
            final(self).client == old(self).client,
            final(self).store@ == execution_step(old(self).client@, old(self).store@, height),
            match r {
                Ok(u) => execution_step_ok(old(self).client@, old(self).store@, height),
                Err(e) => !execution_step_ok(old(self).client@, old(self).store@, height) && e
                    == execution_step_err(old(self).client@, old(self).store@, height),
            },
    {
        let client = self.client;
        let ghost chainv = client@;
        let ghost orig = self.store@;
        let block = match client.get_block(height) {
            Some(b) => b,
            None => {
                return Err(Error::Sync(SyncError::NothingAtHeight(height)));
            },
        };
        let ghost bv = block@;
        let block_hash = match &block.hash {
            Some(h) => h.clone(),
            None => {
                return Err(Error::Sync(SyncError::PendingBlock(height)));
            },
        };
        let block_number = match block.number {
            Some(n) => n,
            None => {
                return Err(Error::Sync(SyncError::PendingBlock(height)));
            },
        };
        proof {
            assert(!bv.pending());
            assert(bv.wf());
        }
        let ntx = block.transactions.len();
        let mut new_transactions: Vec<NewTransaction> = Vec::new();
        let mut i: usize = 0;
        while i < ntx
            invariant
                old(self).inv(),
                chainv.wf(),
                chainv.block_at(height) == Some(bv),
                bv == block@,
                !bv.pending(),
                ntx == block.transactions@.len(),
                0 <= i <= ntx,
                new_transactions.deep_view() =~= bv.transactions.subrange(0, i as int).map_values(
                    |t: TxDataV| new_tx_of_data(t),
                ),
                forall|k: int|
                    0 <= k < i ==> transaction_of_new(#[trigger] new_transactions.deep_view()[k]).wf(),
            decreases ntx - i,
        {
            let t = &block.transactions[i];
            proof {
                assert(bv.transactions[i as int] == t@);
                assert(t@.wf());
            }
            let t_block_hash = match &t.block_hash {
                Some(h) => h.clone(),
                None => {
                    proof {
                        assert(false);
                    }
                    return Err(Error::Sync(SyncError::PendingBlock(height)));
                },
            };
            let t_index = match t.transaction_index {
                Some(x) => x,
                None => {
                    proof {
                        assert(false);
                    }
                    return Err(Error::Sync(SyncError::PendingBlock(height)));
                },
            };
            let row = NewTransaction::new(
                t.hash.clone(),
                t_block_hash,
                t_index,
                clone_opt_hash160(&t.from),
                clone_opt_hash160(&t.to),
                clone_bytes(&t.input),
                t.value,
            );
            proof {
                assert(row@ == new_tx_of_data(t@));
            }
            let ghost pre = new_transactions.deep_view();
            new_transactions.push(row);
            proof {
                assert(new_transactions.deep_view() =~= pre.push(new_tx_of_data(
                    bv.transactions[i as int],
                )));
                assert(bv.transactions.subrange(0, i as int + 1) =~= bv.transactions.subrange(
                    0,
                    i as int,
                ).push(bv.transactions[i as int]));
                assert(new_transactions.deep_view() =~= bv.transactions.subrange(
                    0,
                    i as int + 1,
                ).map_values(|t: TxDataV| new_tx_of_data(t)));
            }
            i += 1;
        }
        let batch = NewTransactions::new(new_transactions);
        proof {
            assert(bv.transactions.subrange(0, ntx as int) =~= bv.transactions);
            assert(batch@ =~= bv.transactions.map_values(|t: TxDataV| new_tx_of_data(t)));
        }
        if batch.conflicts(&self.store) {
            return Err(Error::Store(StoreError::DuplicateKey));
        }
        let new_block = NewExecBlock::new(
            block_hash,
            block_number,
            block.parent_hash.clone(),
            block.state_root.clone(),
            block.transactions_root.clone(),
            block.receipts_root.clone(),
        );
        proof {
            assert(new_block@ == block_row_of_data(bv));
        }
        match new_block.insert(&mut self.store) {
            Ok(_) => {},
            Err(e) => {
                return Err(Error::Store(e));
            },
        }
        match batch.batch_insert(&mut self.store) {
            Ok(_) => {},
            Err(e) => {
                proof {
                    assert(false);
                }
                return Err(Error::Store(e));
            },
        }
        let ghost mid = self.store@;
        proof {
            assert(mid == StoreV {
                blocks: orig.blocks.push(block_row_of_data(bv)),
                transactions: orig.transactions + bv.transactions.map_values(
                    |t: TxDataV| new_tx_of_data(t),
                ).map_values(|t: NewTransactionV| transaction_of_new(t)),
                ..orig
            });
        }
        let deposit_addr = deposit_contract_address_bytes();
        let mut j: usize = 0;
        while j < ntx
            invariant
                chainv.wf(),
                chainv == client@,
                chainv.block_at(height) == Some(bv),
                bv == block@,
                !bv.pending(),
                deposit_addr@ == deposit_contract_address(),
                ntx == block.transactions@.len(),
                0 <= j <= ntx,
                self.client == client,
                self.store.wf(),
                self.store@ == link_all(chainv, mid, bv.transactions.subrange(0, j as int)),
            decreases ntx - j,
        {
            let t = &block.transactions[j];
            proof {
                assert(bv.transactions[j as int] == t@);
                assert(t@.wf());
                assert(block_txs_have_receipts(bv, chainv.receipts));
                assert(bv.transactions.subrange(0, j as int + 1).drop_last() =~= bv.transactions.subrange(
                    0,
                    j as int,
                ));
                assert(bv.transactions.subrange(0, j as int + 1).last() == bv.transactions[j as int]);
            }
            let is_deposit = match &t.to {
                Some(to) => to.matches(&deposit_addr),
                None => false,
            };
            if is_deposit {
                proof {
                    assert(t@.to == Some(deposit_contract_address()));
                }
                match link_validator_to_depositor(client, &mut self.store, t) {
                    Ok(_) => {},
                    Err(e) => {
                        proof {
                            assert(false);
                        }
                        return Err(e);
                    },
                }
            } else {
                proof {
                    assert(t@.to != Some(deposit_contract_address()));
                    assert(link_one(chainv, self.store@, t@) == self.store@);
                }
            }
            j += 1;
        }
        proof {
            assert(bv.transactions.subrange(0, ntx as int) =~= bv.transactions);
        }
        Ok(())
    }
}

impl<'a> DbSyncer for ExecutionSyncer<'a> {
    type ChainModel = ExecutionChainV;

    open spec fn chain(&self) -> ExecutionChainV {
        self.client@
    }

    open spec fn store_model(&self) -> StoreV {
        self.store@
    }

    open spec fn inv(&self) -> bool {
        self.store.wf() && self.client@.wf()
    }

    open spec fn step(chain: ExecutionChainV, store: StoreV, height: u64) -> StoreV {
        execution_step(chain, store, height)
    }

    open spec fn step_ok(chain: ExecutionChainV, store: StoreV, height: u64) -> bool {
        execution_step_ok(chain, store, height)
    }

    open spec fn db_height_of(store: StoreV) -> Option<u64> {
        execution_db_height(store)
    }

    fn get_db_height(&self) -> (r: Result<u64, Error>) {
        match ExecBlock::get_highest(&self.store) {
            Ok(block) => {
                proof {
                    lemma_max_block_number(self.store@.blocks);
                    let m = max_block_number(self.store@.blocks);
                    let w = choose|i: int|
                        0 <= i < self.store@.blocks.len() && self.store@.blocks[i].number == m;
                    assert(self.store@.blocks[w].number <= block@.number);
                    let v = choose|i: int|
                        0 <= i < self.store@.blocks.len() && self.store@.blocks[i] == block@;
                    assert(self.store@.blocks[v].number <= m);
                }
                Ok(block.number())
            },
            Err(e) => Err(Error::Store(e)),
        }
    }

    fn create_new_entry(&mut self, height: u64) -> (r: Result<(), Error>) {
        self.process_height(height)
    }
}

} // verus!
