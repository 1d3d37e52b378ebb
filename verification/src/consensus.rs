//! Proof-of-stake consensus: validators, their stake and voting power, and
//! the interface of a consensus engine.

pub mod engine;
pub mod staking;
pub mod validator;
