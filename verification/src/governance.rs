//! On-chain governance: proposals, votes and their tally.

pub mod engine;
pub mod proposal;
