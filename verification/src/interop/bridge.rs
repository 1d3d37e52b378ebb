use std::collections::HashSet;
use vstd::prelude::*;
use crate::interop::message::BridgeMessage;

verus! {

broadcast use vstd::std_specs::hash::group_hash_axioms;

pub struct BridgeState {
    pub chain_id: u64,
    /// The nonces of the messages processed so far, against replay.
    pub processed_nonces: HashSet<u64>,
    /// The messages that wait for a relayer.
    pub outbox: Vec<BridgeMessage>,
}

impl BridgeState {
    pub fn new(chain_id: u64) -> (bridge: Self)
        ensures
            bridge.chain_id == chain_id,
            bridge.processed_nonces@ == Set::<u64>::empty(),
            bridge.outbox@ == Seq::<BridgeMessage>::empty(),
    {
        Self { chain_id, processed_nonces: HashSet::new(), outbox: Vec::new() }
    }

    /// Puts a message from this chain to `dest_chain` at the end of the
    /// outbox.
    pub fn deposit(
        &mut self,
        dest_chain: u64,
        sender: Vec<u8>,
        recipient: Vec<u8>,
        payload: Vec<u8>,
        nonce: u64,
    )
        ensures
            final(self).chain_id == old(self).chain_id,
            final(self).processed_nonces == old(self).processed_nonces,
            final(self).outbox@.len() == old(self).outbox@.len() + 1,
            final(self).outbox@.drop_last() == old(self).outbox@,
            final(self).outbox@.last().source_chain_id == old(self).chain_id,
            final(self).outbox@.last().dest_chain_id == dest_chain,
            final(self).outbox@.last().sender == sender,
            final(self).outbox@.last().recipient == recipient,
            final(self).outbox@.last().payload == payload,
            final(self).outbox@.last().nonce == nonce,
    {
        let msg = BridgeMessage::new(self.chain_id, dest_chain, sender, recipient, payload, nonce);
        self.outbox.push(msg);
        assert(final(self).outbox@.drop_last() =~= old(self).outbox@);
    }

    /// Takes in a message from another chain.
    ///
    /// Fails with `Wrong destination chain` if the message is for another
    /// chain, and with `Message already processed (Replay detected)` if a
    /// message with its nonce was taken in before; nothing changes then.
    /// Otherwise the nonce is recorded.
    pub fn process_incoming(&mut self, msg: BridgeMessage) -> (res: Result<(), String>)
        ensures
            final(self).chain_id == old(self).chain_id,
            final(self).outbox == old(self).outbox,
            msg.dest_chain_id != old(self).chain_id ==> ({
                &&& res matches Err(reason) && reason@ == "Wrong destination chain"@
                &&& final(self).processed_nonces@ == old(self).processed_nonces@
            }),
            msg.dest_chain_id == old(self).chain_id && old(self).processed_nonces@.contains(
                msg.nonce,
            ) ==> ({
                &&& res matches Err(reason) && reason@
                    == "Message already processed (Replay detected)"@
                &&& final(self).processed_nonces@ == old(self).processed_nonces@
            }),
            msg.dest_chain_id == old(self).chain_id && !old(self).processed_nonces@.contains(
                msg.nonce,
            ) ==> ({
                &&& res is Ok
                &&& final(self).processed_nonces@ == old(self).processed_nonces@.insert(msg.nonce)
            }),
    {
        if msg.dest_chain_id != self.chain_id {
            return Err("Wrong destination chain".to_string());
        }
        if self.processed_nonces.contains(&msg.nonce) {
            return Err("Message already processed (Replay detected)".to_string());
        }
        self.processed_nonces.insert(msg.nonce);
        Ok(())
    }
}

} // verus!
