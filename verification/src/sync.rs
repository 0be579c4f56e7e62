//! The synchronization engine and its two chain-layer adapters.

pub mod consensus_layer;
pub mod execution_layer;
pub mod validators;
pub mod syncer;
