//! The bridge to other chains: messages, the outbox and replay protection.

pub mod bridge;
pub mod message;
