//! The peer-to-peer layer: the messages that nodes gossip and the decisions
//! of the network service.

pub mod messages;
pub mod service;
