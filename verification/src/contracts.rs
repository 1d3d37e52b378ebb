//! System contracts: the registry of their addresses and their native
//! execution.

pub mod native;
pub mod registry;
