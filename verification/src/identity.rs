//! Decentralised identity: DID documents, verifiable credentials and the
//! interface of a zero-knowledge prover.

pub mod credential;
pub mod did;
pub mod zk;
