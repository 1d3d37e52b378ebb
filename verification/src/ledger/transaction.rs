use vstd::prelude::*;

verus! {

/// An input of a UTXO transaction: the output it spends and the proof that
/// the spender may do so.
#[derive(Debug, Clone, PartialEq, Eq)]
pub struct UtxoInput {
    pub transaction_hash: String,
    pub output_index: u32,
    pub signature: Vec<u8>,
    pub public_key: Vec<u8>,
}

/// An output of a UTXO transaction.
#[derive(Debug, Clone, PartialEq, Eq)]
pub struct UtxoOutput {
    pub amount: u64,
    pub recipient_address: String,
}

/// An account-based transaction. `to` is `None` for a contract creation.
#[derive(Debug, Clone, PartialEq, Eq)]
pub struct AccountTransaction {
    pub nonce: u64,
    pub to: Option<String>,
    pub amount: u64,
    pub data: Vec<u8>,
    pub gas_limit: u64,
    pub gas_price: u64,
    pub signature: Vec<u8>,
    pub sender_public_key: Vec<u8>,
}

#[derive(Debug, Clone, PartialEq, Eq)]
pub struct UtxoTransaction {
    pub inputs: Vec<UtxoInput>,
    pub outputs: Vec<UtxoOutput>,
    pub timestamp: u64,
}

#[derive(Debug, Clone, PartialEq, Eq)]
pub enum TransactionData {
    Utxo(UtxoTransaction),
    Account(AccountTransaction),
}

#[derive(Debug, Clone, PartialEq, Eq)]
pub struct Transaction {
    pub data: TransactionData,
}

} // verus!
