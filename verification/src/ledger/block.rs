use vstd::prelude::*;
use crate::crypto::{spec_blake3_hex, Blake3};
use crate::ledger::merkle::{compute_merkle_root, spec_merkle_root};
use crate::ledger::transaction::Transaction;

verus! {

#[derive(Debug, Clone, PartialEq, Eq)]
pub struct BlockHeader {
    pub parent_hash: String,
    pub timestamp: u64,
    pub slot: u64,
    pub state_root: String,
    pub transactions_root: String,
    pub validator_public_key: Vec<u8>,
    pub signature: Vec<u8>,
}

#[derive(Debug, Clone, PartialEq, Eq)]
pub struct Block {
    pub header: BlockHeader,
    pub transactions: Vec<Transaction>,
}

/// The digests of a list of encoded transactions, in order.
pub open spec fn spec_digests(encodings: Seq<Vec<u8>>) -> Seq<Seq<char>> {
    Seq::new(encodings.len(), |i: int| spec_blake3_hex(encodings[i]@))
}

/// The Merkle root over the digests of the encoded transactions.
pub fn transactions_root(encodings: &Vec<Vec<u8>>) -> (root: String)
    ensures
        root@ == spec_merkle_root(spec_digests(encodings@)),
{
    let mut digests: Vec<String> = Vec::new();
    let mut i: usize = 0;
    while i < encodings.len()
        invariant
            i <= encodings@.len(),
            digests@.len() == i,
            forall|k: int|
                0 <= k < i ==> (#[trigger] digests@[k])@ == spec_blake3_hex(encodings@[k]@),
        decreases encodings@.len() - i,
    {
        digests.push(Blake3::hash(encodings[i].as_slice()));
        i += 1;
    }
    assert(crate::ledger::merkle::texts(digests@) =~= spec_digests(encodings@));
    compute_merkle_root(digests.as_slice())
}

impl Block {
    /// An unsigned block over `transactions`. `encodings` holds the binary
    /// encoding of each transaction, in the same order; the header commits to
    /// them through the Merkle root of their digests.
    pub fn new(
        parent_hash: String,
        timestamp: u64,
        slot: u64,
        state_root: String,
        transactions: Vec<Transaction>,
        encodings: &Vec<Vec<u8>>,
        validator_public_key: Vec<u8>,
    ) -> (block: Block)
        ensures
            block.header.parent_hash == parent_hash,
            block.header.timestamp == timestamp,
            block.header.slot == slot,
            block.header.state_root == state_root,
            block.header.transactions_root@ == spec_merkle_root(spec_digests(encodings@)),
            block.header.validator_public_key == validator_public_key,
            block.header.signature@ == Seq::<u8>::empty(),
            block.transactions == transactions,
    {
        let transactions_root = transactions_root(encodings);
        let header = BlockHeader {
            parent_hash,
            timestamp,
            slot,
            state_root,
            transactions_root,
            validator_public_key,
            signature: Vec::new(),
        };
        Block { header, transactions }
    }
}

} // verus!
