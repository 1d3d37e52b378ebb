//! Blocks, transactions and the Merkle root that commits a block to its
//! transactions.

pub mod block;
pub mod merkle;
pub mod transaction;
