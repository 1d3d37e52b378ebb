use vstd::prelude::*;

verus! {

#[derive(Debug, Clone, PartialEq)]
pub struct BridgeMessage {
    pub source_chain_id: u64,
    pub dest_chain_id: u64,
    pub sender: Vec<u8>,
    pub recipient: Vec<u8>,
    pub payload: Vec<u8>,
    pub nonce: u64,
}

impl BridgeMessage {
    pub fn new(
        source: u64,
        dest: u64,
        sender: Vec<u8>,
        recipient: Vec<u8>,
        payload: Vec<u8>,
        nonce: u64,
    ) -> (message: Self)
        ensures
            message.source_chain_id == source,
            message.dest_chain_id == dest,
            message.sender == sender,
            message.recipient == recipient,
            message.payload == payload,
            message.nonce == nonce,
    {
        Self { source_chain_id: source, dest_chain_id: dest, sender, recipient, payload, nonce }
    }
}

} // verus!
