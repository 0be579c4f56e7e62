//! Row types of the store's four tables, with their insertable forms.
//!
//! Each table has a stored row type and an insertable type carrying the
//! fields a writer supplies; fields the store fills on first insert (a
//! transaction's status, a validator's deposit link) are absent from the
//! insertable form and start out empty.

pub mod execution_blocks;
pub mod slots;
pub mod specs;
pub mod transactions;
pub mod validators;
