//! Plain-value models of what the two node clients hand the indexer.
//!
//! The wire clients live outside the library; they deliver chain data as
//! the explicit values below, so every decision the indexer takes on that
//! data is verified.  A consensus chain maps each slot to an optional
//! block (absence means the chain itself missed the slot); an execution
//! chain maps each height to an optional block with full transaction
//! bodies, plus a receipt per included transaction.

use vstd::prelude::*;

use crate::primitives::{clone_bytes, clone_opt_hash160, clone_opt_hash256, Hash160, Hash256, U256};

verus! {

/// The execution block reference embedded in a post-merge consensus
/// block.
#[verifier::ext_equal]
pub ghost struct ExecPayloadV {
    pub block_hash: Seq<u8>,
    pub block_number: u64,
}

/// Execution payload of a consensus block: the embedded execution block
/// reference.
#[derive(Debug)]
pub struct ExecPayload {
    pub block_hash: Hash256,
    pub block_number: u64,
}

impl View for ExecPayload {
    type V = ExecPayloadV;

    open spec fn view(&self) -> ExecPayloadV {
        ExecPayloadV { block_hash: self.block_hash@, block_number: self.block_number }
    }
}

impl DeepView for ExecPayload {
    type V = ExecPayloadV;

    open spec fn deep_view(&self) -> ExecPayloadV {
        self@
    }
}

impl Clone for ExecPayload {
    fn clone(&self) -> (r: ExecPayload)
        ensures
            r@ == self@,
    {
        ExecPayload { block_hash: self.block_hash.clone(), block_number: self.block_number }
    }
}

/// Mathematical form of a consensus block.
#[verifier::ext_equal]
pub ghost struct BeaconBlockV {
    pub execution_payload: Option<ExecPayloadV>,
}

/// A consensus block: the one field the indexer reads is the optional
/// execution payload (absent on pre-merge blocks).
#[derive(Debug)]
pub struct BeaconBlock {
    pub execution_payload: Option<ExecPayload>,
}

impl View for BeaconBlock {
    type V = BeaconBlockV;

    open spec fn view(&self) -> BeaconBlockV {
        BeaconBlockV { execution_payload: self.execution_payload.deep_view() }
    }
}

impl DeepView for BeaconBlock {
    type V = BeaconBlockV;

    open spec fn deep_view(&self) -> BeaconBlockV {
        self@
    }
}

impl BeaconBlock {
    pub open spec fn wf(self) -> bool {
        match self@.execution_payload {
            Some(p) => p.block_hash.len() == 32,
            None => true,
        }
    }
}

/// Mathematical form of the consensus chain's visible state.
#[verifier::ext_equal]
pub ghost struct ConsensusChainV {
    pub head_height: u64,
    pub blocks: Seq<Option<BeaconBlockV>>,
    pub validators: Option<Seq<ValidatorInfoV>>,
}

impl ConsensusChainV {
    pub open spec fn wf(self) -> bool {
        &&& forall|i: int|
            0 <= i < self.blocks.len() ==> match #[trigger] self.blocks[i] {
                Some(b) => match b.execution_payload {
                    Some(p) => p.block_hash.len() == 32,
                    None => true,
                },
                None => true,
            }
        &&& match self.validators {
            Some(vs) => forall|i: int|
                0 <= i < vs.len() ==> (#[trigger] vs[i]).withdrawal_credentials.len() == 32,
            None => true,
        }
    }

    /// The block the chain shows at slot `h`: slots beyond the recorded
    /// range were missed.
    pub open spec fn block_at(self, h: u64) -> Option<BeaconBlockV> {
        if h < self.blocks.len() {
            self.blocks[h as int]
        } else {
            None
        }
    }
}

/// What the consensus node client shows: a head height, a block (or a
/// miss) per slot, and the validator set visible at the queried slot.
pub struct ConsensusChain {
    pub head_height: u64,
    pub blocks: Vec<Option<BeaconBlock>>,
    pub validators: Option<Vec<ValidatorInfo>>,
}

impl View for ConsensusChain {
    type V = ConsensusChainV;

    open spec fn view(&self) -> ConsensusChainV {
        ConsensusChainV {
            head_height: self.head_height,
            blocks: self.blocks.deep_view(),
            validators: self.validators.deep_view(),
        }
    }
}

impl ConsensusChain {
    pub open spec fn wf(self) -> bool {
        self@.wf()
    }

    /// Return the id of the highest slot synced by the node.
    pub fn get_head_height(&self) -> (r: u64)
        ensures
            r == self@.head_height,
    {
        self.head_height
    }

    /// Return the block at `slot_height`, or nothing when the chain
    /// missed that slot.
    pub fn get_block(&self, slot_height: u64) -> (r: Option<&BeaconBlock>)
        ensures
            match r {
                Some(b) => self@.block_at(slot_height) == Some(b@),
                None => self@.block_at(slot_height) is None,
            },
    {
        let n = self.blocks.len();
        if slot_height < (n as u64) {
            self.blocks[slot_height as usize].as_ref()
        } else {
            None
        }
    }

    /// Return the list of validators visible at the queried slot, or
    /// nothing when the node returned none.
    pub fn get_validators(&self) -> (r: &Option<Vec<ValidatorInfo>>)
        ensures
            r.deep_view() == self@.validators,
    {
        &self.validators
    }
}

/// Mathematical form of a fetched validator record.
#[verifier::ext_equal]
pub ghost struct ValidatorInfoV {
    pub index: u64,
    pub balance: u64,
    pub status: Seq<char>,
    pub pubkey: Seq<u8>,
    pub withdrawal_credentials: Seq<u8>,
    pub effective_balance: u64,
    pub slashed: bool,
    pub activation_eligibility_epoch: u64,
    pub activation_epoch: u64,
    pub exit_epoch: u64,
    pub withdrawable_epoch: u64,
}

/// One validator as the consensus node reports it: the public key is the
/// raw key bytes, not yet hex-encoded.
#[derive(Debug)]
pub struct ValidatorInfo {
    pub index: u64,
    pub balance: u64,
    pub status: String,
    pub pubkey: Vec<u8>,
    pub withdrawal_credentials: Hash256,
    pub effective_balance: u64,
    pub slashed: bool,
    pub activation_eligibility_epoch: u64,
    pub activation_epoch: u64,
    pub exit_epoch: u64,
    pub withdrawable_epoch: u64,
}

impl View for ValidatorInfo {
    type V = ValidatorInfoV;

    open spec fn view(&self) -> ValidatorInfoV {
        ValidatorInfoV {
            index: self.index,
            balance: self.balance,
            status: self.status@,
            pubkey: self.pubkey@,
            withdrawal_credentials: self.withdrawal_credentials@,
            effective_balance: self.effective_balance,
            slashed: self.slashed,
            activation_eligibility_epoch: self.activation_eligibility_epoch,
            activation_epoch: self.activation_epoch,
            exit_epoch: self.exit_epoch,
            withdrawable_epoch: self.withdrawable_epoch,
        }
    }
}

impl DeepView for ValidatorInfo {
    type V = ValidatorInfoV;

    open spec fn deep_view(&self) -> ValidatorInfoV {
        self@
    }
}

impl Clone for ValidatorInfo {
    fn clone(&self) -> (r: ValidatorInfo)
        ensures
            r@ == self@,
    {
        ValidatorInfo {
            index: self.index,
            balance: self.balance,
            status: self.status.clone(),
            pubkey: clone_bytes(&self.pubkey),
            withdrawal_credentials: self.withdrawal_credentials.clone(),
            effective_balance: self.effective_balance,
            slashed: self.slashed,
            activation_eligibility_epoch: self.activation_eligibility_epoch,
            activation_epoch: self.activation_epoch,
            exit_epoch: self.exit_epoch,
            withdrawable_epoch: self.withdrawable_epoch,
        }
    }
}

/// Mathematical form of a fetched transaction.
#[verifier::ext_equal]
pub ghost struct TxDataV {
    pub hash: Seq<u8>,
    pub block_hash: Option<Seq<u8>>,
    pub transaction_index: Option<u64>,
    pub from: Option<Seq<u8>>,
    pub to: Option<Seq<u8>>,
    pub input: Seq<u8>,
    pub value: U256,
}

/// One transaction as the execution node reports it inside a block.
#[derive(Debug)]
pub struct TxData {
    pub hash: Hash256,
    pub block_hash: Option<Hash256>,
    pub transaction_index: Option<u64>,
    pub from: Option<Hash160>,
    pub to: Option<Hash160>,
    pub input: Vec<u8>,
    pub value: U256,
}

impl View for TxData {
    type V = TxDataV;

    open spec fn view(&self) -> TxDataV {
        TxDataV {
            hash: self.hash@,
            block_hash: self.block_hash.deep_view(),
            transaction_index: self.transaction_index,
            from: self.from.deep_view(),
            to: self.to.deep_view(),
            input: self.input@,
            value: self.value,
        }
    }
}

impl DeepView for TxData {
    type V = TxDataV;

    open spec fn deep_view(&self) -> TxDataV {
        self@
    }
}

impl Clone for TxData {
    fn clone(&self) -> (r: TxData)
        ensures
            r@ == self@,
    {
        TxData {
            hash: self.hash.clone(),
            block_hash: clone_opt_hash256(&self.block_hash),
            transaction_index: self.transaction_index,
            from: clone_opt_hash160(&self.from),
            to: clone_opt_hash160(&self.to),
            input: clone_bytes(&self.input),
            value: self.value,
        }
    }
}

impl TxDataV {
    /// A transaction inside a fetched block carries well-formed hashes,
    /// and its inclusion data (owning block hash and index) is present.
    pub open spec fn wf(self) -> bool {
        &&& self.hash.len() == 32
        &&& self.block_hash matches Some(h) && h.len() == 32
        &&& self.transaction_index is Some
        &&& match self.from {
            Some(a) => a.len() == 20,
            None => true,
        }
        &&& match self.to {
            Some(a) => a.len() == 20,
            None => true,
        }
    }
}

/// Mathematical form of a fetched execution block.
#[verifier::ext_equal]
pub ghost struct ExecBlockDataV {
    pub hash: Option<Seq<u8>>,
    pub number: Option<u64>,
    pub parent_hash: Seq<u8>,
    pub state_root: Seq<u8>,
    pub transactions_root: Seq<u8>,
    pub receipts_root: Seq<u8>,
    pub transactions: Seq<TxDataV>,
}

impl ExecBlockDataV {
    /// A pending block is one the node returned without a hash or a
    /// number yet.
    pub open spec fn pending(self) -> bool {
        self.hash is None || self.number is None
    }

    pub open spec fn wf(self) -> bool {
        &&& match self.hash {
            Some(h) => h.len() == 32,
            None => true,
        }
        &&& self.parent_hash.len() == 32
        &&& self.state_root.len() == 32
        &&& self.transactions_root.len() == 32
        &&& self.receipts_root.len() == 32
        &&& !self.pending() ==> forall|i: int|
            0 <= i < self.transactions.len() ==> (#[trigger] self.transactions[i]).wf()
                && self.transactions[i].block_hash == self.hash
    }
}

/// One execution block as the node reports it, with full transaction
/// bodies.  A block without a hash or number is pending.
#[derive(Debug)]
pub struct ExecBlockData {
    pub hash: Option<Hash256>,
    pub number: Option<u64>,
    pub parent_hash: Hash256,
    pub state_root: Hash256,
    pub transactions_root: Hash256,
    pub receipts_root: Hash256,
    pub transactions: Vec<TxData>,
}

impl View for ExecBlockData {
    type V = ExecBlockDataV;

    open spec fn view(&self) -> ExecBlockDataV {
        ExecBlockDataV {
            hash: self.hash.deep_view(),
            number: self.number,
            parent_hash: self.parent_hash@,
            state_root: self.state_root@,
            transactions_root: self.transactions_root@,
            receipts_root: self.receipts_root@,
            transactions: self.transactions.deep_view(),
        }
    }
}

impl DeepView for ExecBlockData {
    type V = ExecBlockDataV;

    open spec fn deep_view(&self) -> ExecBlockDataV {
        self@
    }
}

/// A transaction receipt: the status bit is present once the
/// transaction's block is no longer pending.
#[derive(Debug, Clone, Copy, PartialEq, Eq, Structural)]
pub struct Receipt {
    pub status: Option<u64>,
}

impl Receipt {
    /// The transaction succeeded when its receipt status is non-zero.
    pub open spec fn spec_success(self) -> bool {
        match self.status {
            Some(s) => s != 0,
            None => false,
        }
    }
}

/// A receipt recorded under the hash of the transaction it belongs to.
#[derive(Debug)]
pub struct ReceiptEntry {
    pub hash: Hash256,
    pub receipt: Receipt,
}

impl View for ReceiptEntry {
    type V = (Seq<u8>, Receipt);

    open spec fn view(&self) -> (Seq<u8>, Receipt) {
        (self.hash@, self.receipt)
    }
}

impl DeepView for ReceiptEntry {
    type V = (Seq<u8>, Receipt);

    open spec fn deep_view(&self) -> (Seq<u8>, Receipt) {
        self@
    }
}

/// Mathematical form of the execution chain's visible state.
#[verifier::ext_equal]
pub ghost struct ExecutionChainV {
    pub head_height: u64,
    pub blocks: Seq<Option<ExecBlockDataV>>,
    pub receipts: Seq<(Seq<u8>, Receipt)>,
}

/// There is a receipt recorded for the transaction hash `h`.
pub open spec fn has_receipt(s: Seq<(Seq<u8>, Receipt)>, h: Seq<u8>) -> bool {
    exists|i: int| 0 <= i < s.len() && s[i].0 == h
}

/// The receipt recorded for transaction hash `h`, meaningful when
/// `has_receipt` holds and hashes are unique.
pub open spec fn receipt_at(s: Seq<(Seq<u8>, Receipt)>, h: Seq<u8>) -> Receipt {
    s[choose|i: int| 0 <= i < s.len() && s[i].0 == h].1
}

impl ExecutionChainV {
    /// The block the chain shows at height `h`.
    pub open spec fn block_at(self, h: u64) -> Option<ExecBlockDataV> {
        if h < self.blocks.len() {
            self.blocks[h as int]
        } else {
            None
        }
    }

    /// Every block is well formed; every transaction of a non-pending
    /// block has a receipt whose status bit is present (the transaction
    /// is included, so deriving success from the receipt is defined);
    /// receipt hashes are unique.
    pub open spec fn wf(self) -> bool {
        &&& forall|i: int|
            0 <= i < self.blocks.len() ==> match #[trigger] self.blocks[i] {
                Some(b) => b.wf() && (!b.pending() ==> block_txs_have_receipts(b, self.receipts)),
                None => true,
            }
        &&& forall|i: int, j: int| 0 <= i < j < self.receipts.len() ==> s_hash(self.receipts[i])
            != s_hash(self.receipts[j])
    }
}

/// The transaction hash of a recorded receipt.
pub open spec fn s_hash(p: (Seq<u8>, Receipt)) -> Seq<u8> {
    p.0
}

/// Every transaction of the block that the linking step will confirm — a
/// call to the deposit contract whose input decodes as the deposit
/// function — has a receipt with a present status bit.  (Such a
/// transaction is included in a finalized block, so its receipt exists.)
pub open spec fn block_txs_have_receipts(
    b: ExecBlockDataV,
    receipts: Seq<(Seq<u8>, Receipt)>,
) -> bool {
    forall|j: int|
        0 <= j < b.transactions.len() && (#[trigger] b.transactions[j]).to == Some(
            crate::abi::deposit_contract_address(),
        ) && crate::abi::spec_is_deposit_call(b.transactions[j].input) ==> has_receipt(
            receipts,
            b.transactions[j].hash,
        ) && receipt_at(receipts, b.transactions[j].hash).status is Some
}

/// What the execution node client shows: a head height, a block (with
/// transaction bodies) per height, and a receipt per included
/// transaction.
pub struct ExecutionChain {
    pub head_height: u64,
    pub blocks: Vec<Option<ExecBlockData>>,
    pub receipts: Vec<ReceiptEntry>,
}

impl View for ExecutionChain {
    type V = ExecutionChainV;

    open spec fn view(&self) -> ExecutionChainV {
        ExecutionChainV {
            head_height: self.head_height,
            blocks: self.blocks.deep_view(),
            receipts: self.receipts.deep_view(),
        }
    }
}

impl ExecutionChain {
    pub open spec fn wf(self) -> bool {
        self@.wf()
    }

    /// Return the node's head height.
    pub fn get_head_height(&self) -> (r: u64)
        ensures
            r == self@.head_height,
    {
        self.head_height
    }

    /// Get the block at `height`, or nothing when the chain has no block
    /// there.
    pub fn get_block(&self, height: u64) -> (r: Option<&ExecBlockData>)
        ensures
            match r {
                Some(b) => self@.block_at(height) == Some(b@),
                None => self@.block_at(height) is None,
            },
    {
        let n = self.blocks.len();
        if height < (n as u64) {
            self.blocks[height as usize].as_ref()
        } else {
            None
        }
    }

    /// Get the receipt of transaction `hash`, or nothing when the
    /// transaction is not known to the node.
    pub fn get_transaction_receipt(&self, hash: &Hash256) -> (r: Option<Receipt>)
        requires
            self.wf(),
        ensures
            match r {
                Some(rc) => has_receipt(self@.receipts, hash@) && rc == receipt_at(
                    self@.receipts,
                    hash@,
                ),
                None => !has_receipt(self@.receipts, hash@),
            },
    {
        let n = self.receipts.len();
        let mut i: usize = 0;
        while i < n
            invariant
                self.wf(),
                n == self.receipts@.len(),
                0 <= i <= n,
                forall|k: int| 0 <= k < i ==> s_hash(#[trigger] self@.receipts[k]) != hash@,
            decreases n - i,
        {
            if self.receipts[i].hash.matches(hash) {
                proof {
                    assert(self@.receipts[i as int].0 == hash@);
                    assert(has_receipt(self@.receipts, hash@));
                    let w = choose|k: int|
                        0 <= k < self@.receipts.len() && self@.receipts[k].0 == hash@;
                    if w < i as int {
                        assert(s_hash(self@.receipts[w]) != hash@);
                    } else if w > i as int {
                        assert(s_hash(self@.receipts[i as int]) != s_hash(self@.receipts[w]));
                    }
                    assert(w == i);
                }
                return Some(self.receipts[i].receipt);
            }
            i += 1;
        }
        None
    }
}

} // verus!
