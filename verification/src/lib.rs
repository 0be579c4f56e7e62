//! Index of a two-layer blockchain in a relational-style store.
//!
//! The crate mirrors the state of a consensus (beacon) chain and an
//! execution chain into an append-mostly store: slots, execution blocks,
//! transactions and validators, plus the derived link between a validator
//! and the deposit transaction that registered it.  The synchronization
//! engine, the two chain adapters, the validator refresher and the
//! backfill bound finder are all verified against models of the chain
//! data and of the store's conflict-resolution primitives.

pub mod abi;
pub mod args;
pub mod chain;
pub mod codec;
pub mod error;
pub mod laws;
pub mod models;
pub mod orchestrator;
pub mod primitives;
pub mod store;
pub mod sync;

pub use error::{Error, StoreError, SyncError};
