//! The height-range sync engine.
//!
//! A syncer binds one chain layer to the store: it knows the chain's
//! data, the store's highest synced height, and how to process a single
//! height.  The engine supplies the shared catch-up policy: resolve the
//! starting height, walk the range in strictly ascending order, never let
//! one height's failure abort the range, and report the requested ceiling
//! back.

use vstd::prelude::*;

use crate::error::Error;
use crate::store::StoreV;

verus! {

/// Resolution of a catch-up's starting height: the explicit value when
/// one is supplied, otherwise the height after the highest stored one,
/// or zero for an empty store.
pub open spec fn resolve_from(from: Option<u64>, db_height: Option<u64>) -> u64 {
    match from {
        Some(f) => f,
        None => match db_height {
            Some(h) => if h == u64::MAX {
                u64::MAX
            } else {
                (h + 1) as u64
            },
            None => 0u64,
        },
    }
}

/// The store after a catch-up has processed every height in
/// `[from, upto)` in ascending order.
pub open spec fn bump_range<S: DbSyncer>(
    chain: S::ChainModel,
    store: StoreV,
    from: int,
    upto: int,
) -> StoreV
    decreases upto - from,
{
    if from >= upto {
        store
    } else {
        bump_range::<S>(chain, S::step(chain, store, from as u64), from + 1, upto)
    }
}

/// Processing one more height at the top of a range is one more step
/// after the range.
pub proof fn lemma_bump_range_snoc<S: DbSyncer>(
    chain: S::ChainModel,
    store: StoreV,
    from: int,
    upto: int,
)
    requires
        0 <= from <= upto,
        upto < 0x1_0000_0000_0000_0000,
    ensures
        bump_range::<S>(chain, store, from, upto + 1) == S::step(
            chain,
            bump_range::<S>(chain, store, from, upto),
            upto as u64,
        ),
    decreases upto - from,
{
    let stepped = S::step(chain, store, from as u64);
    if from == upto {
        assert(bump_range::<S>(chain, store, from, upto + 1) == bump_range::<S>(
            chain,
            stepped,
            from + 1,
            upto + 1,
        ));
        assert(bump_range::<S>(chain, stepped, from + 1, upto + 1) == stepped);
        assert(bump_range::<S>(chain, store, from, upto) == store);
    } else {
        lemma_bump_range_snoc::<S>(chain, stepped, from + 1, upto);
        assert(bump_range::<S>(chain, store, from, upto + 1) == bump_range::<S>(
            chain,
            stepped,
            from + 1,
            upto + 1,
        ));
        assert(bump_range::<S>(chain, store, from, upto) == bump_range::<S>(
            chain,
            stepped,
            from + 1,
            upto,
        ));
    }
}

/// Sugar around storing chain entries in the store.
///
/// Implementors have full control over how to pull one entry and what to
/// store; the trait supplies the looping policy.
pub trait DbSyncer: Sized {
    /// The model of the chain data this syncer reads.
    type ChainModel;

    /// The chain data the syncer sees; it never changes under the
    /// syncer's own operations.
    spec fn chain(&self) -> Self::ChainModel;

    /// The store state the syncer writes.
    spec fn store_model(&self) -> StoreV;

    /// The syncer's invariants hold.
    spec fn inv(&self) -> bool;

    /// The store after one height is processed against the given chain.
    spec fn step(chain: Self::ChainModel, store: StoreV, height: u64) -> StoreV;

    /// Whether processing one height reports success.
    spec fn step_ok(chain: Self::ChainModel, store: StoreV, height: u64) -> bool;

    /// The highest height recorded in the store for this layer, when any.
    spec fn db_height_of(store: StoreV) -> Option<u64>;

    /// Return the stored head height of this layer, or an error when the
    /// layer's table is empty.
    fn get_db_height(&self) -> (r: Result<u64, Error>)
        requires
            self.inv(),
        ensures
            match r {
                Ok(h) => Self::db_height_of(self.store_model()) == Some(h),
                Err(_) => Self::db_height_of(self.store_model()) is None,
            },
    ;

    /// Register a new entry in the store.
    ///
    /// Fetches the entry at `height` from the chain and stores it; the
    /// effect on the store is exactly one `step`, and the result reports
    /// whether the height is now synced.
    fn create_new_entry(&mut self, height: u64) -> (r: Result<(), Error>)
        requires
            old(self).inv(),
        ensures
            final(self).inv(),
            final(self).chain() == old(self).chain(),
            final(self).store_model() == Self::step(
                old(self).chain(),
                old(self).store_model(),
                height,
            ),
            r is Ok <==> Self::step_ok(old(self).chain(), old(self).store_model(), height),
    ;

}

/// Bump the store: process every height between `from` and `to`
/// included, in strictly ascending order.
///
/// If `from` is absent, the height following the highest stored height is
/// used, or zero when the store is empty.  A failed height never aborts
/// the range; the returned value is the requested ceiling `to`, not the
/// highest height actually stored.
pub fn bump<S: DbSyncer>(syncer: &mut S, from: Option<u64>, to: u64) -> (r: Result<u64, Error>)
    requires
        old(syncer).inv(),
    ensures
        final(syncer).inv(),
        final(syncer).chain() == old(syncer).chain(),
        r == Ok::<u64, Error>(to),
        final(syncer).store_model() == bump_range::<S>(
            old(syncer).chain(),
            old(syncer).store_model(),
            resolve_from(from, S::db_height_of(old(syncer).store_model())) as int,
            to as int + 1,
        ),
{
    let from_resolved: u64 = match from {
        Some(f) => f,
        None => match syncer.get_db_height() {
            Ok(h) => if h == u64::MAX {
                u64::MAX
            } else {
                h + 1
            },
            Err(_) => 0,
        },
    };
    let ghost chain = syncer.chain();
    let ghost orig = syncer.store_model();
    proof {
        assert(from_resolved == resolve_from(
            from,
            S::db_height_of(old(syncer).store_model()),
        ));
    }
    if from_resolved > to {
        return Ok(to);
    }
    let mut h = from_resolved;
    loop
        invariant_except_break
            syncer.inv(),
            syncer.chain() == chain,
            from_resolved <= h <= to,
            syncer.store_model() == bump_range::<S>(chain, orig, from_resolved as int, h as int),
        ensures
            syncer.inv(),
            syncer.chain() == chain,
            syncer.store_model() == bump_range::<S>(
                chain,
                orig,
                from_resolved as int,
                to as int + 1,
            ),
        decreases to - h,
    {
        let _ = syncer.create_new_entry(h);
        proof {
            lemma_bump_range_snoc::<S>(chain, orig, from_resolved as int, h as int);
        }
        if h == to {
            break ;
        }
        h = h + 1;
    }
    Ok(to)
}

/// One tick of the unbounded poller: with the node's head at `to`, do
/// nothing when the resolved starting height has already reached `to`,
/// otherwise catch up over `[resolved, to]`.  The caller supplies the
/// explicit override at most once (its first tick); later ticks resolve
/// the start from the store.  A tick never fails: per-height errors stay
/// inside the catch-up.
pub fn poll_once<S: DbSyncer>(syncer: &mut S, from: Option<u64>, to: u64) -> (r: Result<u64, Error>)
    requires
        old(syncer).inv(),
    ensures
        final(syncer).inv(),
        final(syncer).chain() == old(syncer).chain(),
        r == Ok::<u64, Error>(to),
        ({
            let resolved = resolve_from(from, S::db_height_of(old(syncer).store_model()));
            if resolved == to {
                final(syncer).store_model() == old(syncer).store_model()
            } else {
                final(syncer).store_model() == bump_range::<S>(
                    old(syncer).chain(),
                    old(syncer).store_model(),
                    resolved as int,
                    to as int + 1,
                )
            }
        }),
{
    let resolved: u64 = match from {
        Some(f) => f,
        None => match syncer.get_db_height() {
            Ok(h) => if h == u64::MAX {
                u64::MAX
            } else {
                h + 1
            },
            Err(_) => 0,
        },
    };
    if resolved == to {
        return Ok(to);
    }
    bump(syncer, from, to)
}

} // verus!
