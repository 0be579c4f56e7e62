//! Startup validation, the backfill bound finder, and bounded-mode
//! rounds.
//!
//! In bounded ("freeze") mode each round refreshes the validators,
//! translates the consensus ceiling into the execution ceiling through
//! the backfill bound finder, and catches both layers up; the rounds
//! repeat until the consensus side reports the configured ceiling.  The
//! two catch-ups write disjoint tables (slots for the consensus layer;
//! blocks, transactions and validators for the execution layer), so
//! running them one after the other yields the same store as running
//! them concurrently.

use vstd::prelude::*;

use crate::args::Args;
use crate::chain::{ConsensusChain, ConsensusChainV, ExecutionChain, ExecutionChainV, ValidatorInfoV};
use crate::error::{Error, SyncError};
use crate::models::validators::{new_validator_of_info, upsert_all};
use crate::store::{Store, StoreV};
use crate::sync::consensus_layer::{consensus_db_height, ConsensusSyncer};
use crate::sync::execution_layer::{execution_db_height, ExecutionSyncer};
use crate::sync::syncer::{bump, bump_range, resolve_from};
use crate::sync::validators::update_validators;

verus! {

/// The merge point: the first consensus height at which execution
/// payloads appear.  A bounded-mode ceiling before it is rejected at
/// startup.
pub const FIRST_SLOT_WITH_EXEC_BLOCK: u64 = 29151;

/// Validate the startup configuration: the ceiling must lie at or after
/// the merge point, and only the `mainnet` preset on the `kiln` chain is
/// accepted.
pub fn validate_config(freeze_at: u64, preset_base: &String, config_name: &Option<String>) -> (r:
    Result<(), Error>)
    ensures
        match r {
            Ok(u) => freeze_at >= FIRST_SLOT_WITH_EXEC_BLOCK && preset_base@ == "mainnet"@
                && config_name.deep_view() == Some("kiln"@),
            Err(e) => match e {
                Error::PreMergeFreezeSlot => freeze_at < FIRST_SLOT_WITH_EXEC_BLOCK,
                Error::InvalidChainPreset(p) => freeze_at >= FIRST_SLOT_WITH_EXEC_BLOCK
                    && preset_base@ != "mainnet"@ && p@ == preset_base@,
                Error::MissingChainName => freeze_at >= FIRST_SLOT_WITH_EXEC_BLOCK && preset_base@
                    == "mainnet"@ && config_name is None,
                Error::InvalidChainName => freeze_at >= FIRST_SLOT_WITH_EXEC_BLOCK && preset_base@
                    == "mainnet"@ && (config_name.deep_view() matches Some(n) && n != "kiln"@),
                _ => false,
            },
        },
{
    if freeze_at < FIRST_SLOT_WITH_EXEC_BLOCK {
        return Err(Error::PreMergeFreezeSlot);
    }
    let mainnet: String = "mainnet".to_owned();
    if !preset_base.eq(&mainnet) {
        return Err(Error::InvalidChainPreset(preset_base.clone()));
    }
    match config_name {
        Some(name) => {
            let kiln: String = "kiln".to_owned();
            if !name.eq(&kiln) {
                return Err(Error::InvalidChainName);
            }
        },
        None => {
            return Err(Error::MissingChainName);
        },
    }
    Ok(())
}

/// Whether the chain shows no execution payload at slot `j` (a missed
/// slot or a pre-merge block).
pub open spec fn no_payload_at(chain: ConsensusChainV, j: u64) -> bool {
    match chain.block_at(j) {
        Some(b) => b.execution_payload is None,
        None => true,
    }
}

/// The latest execution height reachable from consensus height `h`: the
/// block number of the first execution payload found scanning backward
/// from `h`, or zero when no slot down to zero carries one.
pub open spec fn last_exec_block(chain: ConsensusChainV, h: int) -> u64
    decreases h + 1,
{
    if h < 0 {
        0
    } else {
        match chain.block_at(h as u64) {
            Some(b) => match b.execution_payload {
                Some(p) => p.block_number,
                None => last_exec_block(chain, h - 1),
            },
            None => last_exec_block(chain, h - 1),
        }
    }
}

/// Query the consensus layer for slots between `height` and zero until
/// one with an execution payload is found; return that payload's block
/// number, or zero when none exists.
pub fn find_last_exec_block(client: &ConsensusChain, height: u64) -> (r: Result<u64, Error>)
    ensures
        r == Ok::<u64, Error>(last_exec_block(client@, height as int)),
{
    let mut h = height;
    loop
        invariant
            h <= height,
            last_exec_block(client@, height as int) == last_exec_block(client@, h as int),
        decreases h,
    {
        match client.get_block(h) {
            Some(slot_block) => {
                match &slot_block.execution_payload {
                    Some(p) => {
                        return Ok(p.block_number);
                    },
                    None => {},
                }
            },
            None => {},
        }
        if h == 0 {
            proof {
                assert(last_exec_block(client@, 0) == last_exec_block(client@, -1));
                assert(last_exec_block(client@, -1) == 0);
            }
            return Ok(0);
        }
        h = h - 1;
    }
}

/// With an execution payload at slot `k` and none in `(k, h]`, the
/// backfill bound is that payload's block number.
pub proof fn lemma_backfill_finds_payload(chain: ConsensusChainV, h: u64, k: u64, number: u64)
    requires
        k <= h,
        match chain.block_at(k) {
            Some(b) => match b.execution_payload {
                Some(p) => p.block_number == number,
                None => false,
            },
            None => false,
        },
        forall|j: u64| k < j <= h ==> no_payload_at(chain, j),
    ensures
        last_exec_block(chain, h as int) == number,
    decreases h,
{
    if h == k {
    } else {
        assert(no_payload_at(chain, h));
        lemma_backfill_finds_payload(chain, (h - 1) as u64, k, number);
    }
}

/// With no execution payload anywhere in `[0, h]`, the backfill bound is
/// zero.
pub proof fn lemma_backfill_no_payload(chain: ConsensusChainV, h: u64)
    requires
        forall|j: u64| j <= h ==> no_payload_at(chain, j),
    ensures
        last_exec_block(chain, h as int) == 0,
    decreases h,
{
    assert(no_payload_at(chain, h));
    if h > 0 {
        lemma_backfill_no_payload(chain, (h - 1) as u64);
        assert(last_exec_block(chain, h as int) == last_exec_block(chain, h as int - 1));
    } else {
        assert(last_exec_block(chain, 0) == last_exec_block(chain, -1));
        assert(last_exec_block(chain, -1) == 0);
    }
}

/// The smaller of two heights.
pub open spec fn min_u64(a: u64, b: u64) -> u64 {
    if a < b {
        a
    } else {
        b
    }
}

/// The store after one bounded-mode round with a validator set present:
/// the validator refresh, then the consensus catch-up to the round's
/// target, then the execution catch-up to the backfill bound.
pub open spec fn sync_round_spec(
    c: ConsensusChainV,
    e: ExecutionChainV,
    store: StoreV,
    args: Args,
) -> StoreV {
    let target = min_u64(c.head_height, args.freeze_at);
    let s1 = StoreV {
        validators: upsert_all(
            store.validators,
            c.validators.unwrap().map_values(|v: ValidatorInfoV| new_validator_of_info(v)),
        ),
        ..store
    };
    let s2 = bump_range::<ConsensusSyncer>(
        c,
        s1,
        resolve_from(args.from_slot, consensus_db_height(s1)) as int,
        target as int + 1,
    );
    bump_range::<ExecutionSyncer>(
        e,
        s2,
        resolve_from(args.from_block, execution_db_height(s2)) as int,
        last_exec_block(c, target as int) as int + 1,
    )
}

/// One bounded-mode round: refresh the validators at the round's target
/// height, translate the consensus ceiling into the execution ceiling,
/// catch both layers up, and report whether the consensus side reached
/// the configured ceiling.
pub fn sync_round(
    consensus: &ConsensusChain,
    execution: &ExecutionChain,
    store: Store,
    args: &Args,
) -> (r: (Store, Result<bool, Error>))
    requires
        store.wf(),
        consensus.wf(),
        execution.wf(),
    ensures
        r.0.wf(),
        match r.1 {
            Ok(done) => {
                &&& consensus@.validators is Some
                &&& r.0@ == sync_round_spec(consensus@, execution@, store@, *args)
                &&& done == (min_u64(consensus@.head_height, args.freeze_at) == args.freeze_at)
            },
            Err(e) => {
                &&& consensus@.validators is None
                &&& e == Error::Sync(SyncError::NoValidators)
                &&& r.0@ == store@
            },
        },
{
    let consensus_height = consensus.get_head_height();
    let max_consensus_height = if consensus_height < args.freeze_at() {
        consensus_height
    } else {
        args.freeze_at()
    };
    let mut store = store;
    match update_validators(&mut store, consensus, max_consensus_height) {
        Ok(_) => {},
        Err(e) => {
            return (store, Err(e));
        },
    }
    let max_exec_height = match find_last_exec_block(consensus, max_consensus_height) {
        Ok(n) => n,
        Err(e) => {
            proof {
                assert(false);
            }
            return (store, Err(e));
        },
    };
    let mut consensus_syncer = ConsensusSyncer::new(store, consensus);
    let res_consensus = match bump(&mut consensus_syncer, args.from_slot(), max_consensus_height) {
        Ok(n) => n,
        Err(e) => {
            proof {
                assert(false);
            }
            return (consensus_syncer.store, Err(e));
        },
    };
    let store = consensus_syncer.store;
    let mut execution_syncer = ExecutionSyncer::new(store, execution);
    match bump(&mut execution_syncer, args.from_block(), max_exec_height) {
        Ok(_) => {},
        Err(e) => {
            proof {
                assert(false);
            }
            return (execution_syncer.store, Err(e));
        },
    }
    let store = execution_syncer.store;
    let done = res_consensus == args.freeze_at();
    (store, Ok(done))
}

/// Bounded mode: repeat rounds until the consensus side reports the
/// configured ceiling.
///
/// Under the stated premise — the chain's head has reached the ceiling —
/// every round's consensus catch-up reaches the ceiling exactly, so the
/// loop exits after its first complete round; with the premise the
/// orchestration provably terminates.
#[verifier::loop_isolation(false)]
pub fn run_bounded(
    consensus: &ConsensusChain,
    execution: &ExecutionChain,
    store: Store,
    args: &Args,
) -> (r: (Store, Result<(), Error>))
    requires
        store.wf(),
        consensus.wf(),
        execution.wf(),
        consensus@.head_height >= args.freeze_at,
    ensures
        r.0.wf(),
        match r.1 {
            Ok(u) => consensus@.validators is Some && r.0@ == sync_round_spec(
                consensus@,
                execution@,
                store@,
                *args,
            ),
            Err(e) => consensus@.validators is None && e == Error::Sync(SyncError::NoValidators)
                && r.0@ == store@,
        },
{
    let ghost orig = store@;
    let mut store = store;
    loop
        invariant
            store.wf(),
            store@ == orig,
            consensus.wf(),
            execution.wf(),
            consensus@.head_height >= args.freeze_at,
        decreases 0int,
    {
        let (s2, res) = sync_round(consensus, execution, store, args);
        store = s2;
        match res {
            Err(e) => {
                return (store, Err(e));
            },
            Ok(done) => {
                if done {
                    return (store, Ok(()));
                }
            },
        }
        proof {
            assert(min_u64(consensus@.head_height, args.freeze_at) == args.freeze_at);
            assert(false);
        }
    }
}

} // verus!
