//! Protection of the chain: the fork choice rule and the penalties for
//! misbehaving validators.

pub mod fork_choice;
pub mod slashing;
