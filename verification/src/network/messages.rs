use vstd::prelude::*;
use crate::ledger::block::Block;
use crate::ledger::transaction::Transaction;

verus! {

#[derive(Debug, Clone)]
pub enum NetworkMessage {
    Block(Block),
    Transaction(Transaction),
}

} // verus!
