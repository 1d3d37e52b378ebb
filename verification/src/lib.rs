//! Building blocks of the Vajra chain: the metered stack machine that runs
//! contract bytecode, and the ledger, staking, governance, identity and bridge
//! rules that surround it.

pub mod vm;
pub mod crypto;
pub mod ledger;
pub mod bytes;
pub mod contracts;
pub mod storage;
pub mod consensus;
pub mod governance;
pub mod identity;
pub mod interop;
pub mod security;
pub mod network;
