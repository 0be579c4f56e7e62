//! The validator refresher: periodic full-validator-set merge.
//!
//! Each cycle maps every fetched validator to its record and merge-upserts
//! the whole set keyed on validator index, refreshing only the mutable
//! fields.  A node that returns no validators at the queried slot is a
//! reportable condition, not a silent no-op.

use vstd::prelude::*;

use crate::chain::{ConsensusChain, ValidatorInfoV};
use crate::error::{Error, SyncError};
use crate::models::validators::{new_validator_of_info, upsert_all, NewValidator, NewValidators};
use crate::store::Store;

verus! {

/// Update the stored validators from the set visible at `slot`.
///
/// Every fetched validator is mapped to its record (public key rendered
/// in hex form) and the whole set is merge-upserted in one cycle.
pub fn update_validators(store: &mut Store, client: &ConsensusChain, _slot: u64) -> (r: Result<
    (),
    Error,
>)
    requires
        old(store).wf(),
        client.wf(),
    ensures
        final(store).wf(),
        final(store)@.slots == old(store)@.slots,
        final(store)@.blocks == old(store)@.blocks,
        final(store)@.transactions == old(store)@.transactions,
        match client@.validators {
            Some(infos) => r is Ok && final(store)@.validators == upsert_all(
                old(store)@.validators,
                infos.map_values(|v: ValidatorInfoV| new_validator_of_info(v)),
            ),
            None => r == Err::<(), Error>(Error::Sync(SyncError::NoValidators)) && final(store)@
                == old(store)@,
        },
{
    let validators = match client.get_validators() {
        Some(v) => v,
        None => {
            return Err(Error::Sync(SyncError::NoValidators));
        },
    };
    let ghost infos = client@.validators.unwrap();
    let m = validators.len();
    let mut records: Vec<NewValidator> = Vec::new();
    let mut i: usize = 0;
    while i < m
        invariant
            client.wf(),
            client@.validators == Some(infos),
            validators.deep_view() == infos,
            m == validators@.len(),
            0 <= i <= m,
            records.deep_view() =~= infos.subrange(0, i as int).map_values(
                |v: ValidatorInfoV| new_validator_of_info(v),
            ),
            forall|k: int| 0 <= k < i ==> (#[trigger] records.deep_view()[k]).wf(),
        decreases m - i,
    {
        let v = &validators[i];
        proof {
            assert(infos[i as int] == v@);
            assert(v@.withdrawal_credentials.len() == 32) by {
                assert(client@.wf());
                assert(client@.validators == Some(infos));
                assert(match client@.validators {
                    Some(vs) => vs[i as int].withdrawal_credentials.len() == 32,
                    None => false,
                });
            }
        }
        let record = NewValidator::from(v.clone());
        let ghost pre = records.deep_view();
        records.push(record);
        proof {
            assert(records.deep_view() =~= pre.push(new_validator_of_info(infos[i as int])));
            assert(infos.subrange(0, i as int + 1) =~= infos.subrange(0, i as int).push(
                infos[i as int],
            ));
            assert(records.deep_view() =~= infos.subrange(0, i as int + 1).map_values(
                |v: ValidatorInfoV| new_validator_of_info(v),
            ));
        }
        i += 1;
    }
    let new_validators = NewValidators::new(records);
    proof {
        assert(infos.subrange(0, m as int) =~= infos);
        assert(new_validators@ =~= infos.map_values(|v: ValidatorInfoV| new_validator_of_info(v)));
    }
    match new_validators.batch_upsert(store) {
        Ok(_) => Ok(()),
        Err(e) => {
            proof {
                assert(false);
            }
            Err(Error::Store(e))
        },
    }
}

} // verus!
