use vajra::crypto::Blake3;
use vajra::ledger::block::{transactions_root, Block};
use vajra::ledger::merkle::{compute_merkle_root, merkle_pairs};
use vajra::ledger::transaction::{AccountTransaction, Transaction, TransactionData};

#[test]
fn test_merkle_root_empty() {
    let root = compute_merkle_root(&[]);
    assert_eq!(root, Blake3::hash(b""));
}

#[test]
fn test_merkle_root_single() {
    let hash = Blake3::hash(b"test");
    let root = compute_merkle_root(&[hash.clone()]);
    assert_eq!(root, hash);
}

#[test]
fn test_merkle_root_pair() {
    let h1 = Blake3::hash(b"test1");
    let h2 = Blake3::hash(b"test2");
    let root = compute_merkle_root(&[h1.clone(), h2.clone()]);

    let expected = Blake3::hash(format!("{}{}", h1, h2).as_bytes());
    assert_eq!(root, expected);
}

#[test]
fn merkle_root_of_three_doubles_the_last() {
    let h1 = Blake3::hash(b"a");
    let h2 = Blake3::hash(b"b");
    let h3 = Blake3::hash(b"c");
    let left = Blake3::hash(format!("{}{}", h1, h2).as_bytes());
    let right = Blake3::hash(format!("{}{}", h3, h3).as_bytes());
    let expected = Blake3::hash(format!("{}{}", left, right).as_bytes());
    assert_eq!(compute_merkle_root(&[h1, h2, h3]), expected);
}

#[test]
fn merkle_root_of_plain_texts() {
    let root = compute_merkle_root(&["a".to_string(), "b".to_string()]);
    assert_eq!(root, Blake3::hash(b"ab"));
    let root = compute_merkle_root(&["\u{e9}".to_string(), "z".to_string()]);
    assert_eq!(root, Blake3::hash("\u{e9}z".as_bytes()));
}

#[test]
fn pairs_of_a_layer() {
    let layer = vec!["a".to_string(), "b".to_string(), "c".to_string()];
    assert_eq!(merkle_pairs(&layer), vec!["ab".to_string(), "cc".to_string()]);
    assert_eq!(merkle_pairs(&layer[..2]), vec!["ab".to_string()]);
    assert_eq!(merkle_pairs(&layer[..1]), vec!["aa".to_string()]);
    assert_eq!(merkle_pairs(&[]), Vec::<String>::new());
}

fn transfer(nonce: u64) -> Transaction {
    Transaction {
        data: TransactionData::Account(AccountTransaction {
            nonce,
            to: Some("bob".to_string()),
            amount: 5,
            data: vec![],
            gas_limit: 21000,
            gas_price: 1,
            signature: vec![],
            sender_public_key: vec![1],
        }),
    }
}

#[test]
fn transactions_root_hashes_each_encoding() {
    let encodings = vec![vec![1u8, 2, 3], vec![4u8]];
    let expected = compute_merkle_root(&[Blake3::hash(&[1, 2, 3]), Blake3::hash(&[4])]);
    assert_eq!(transactions_root(&encodings), expected);
    assert_eq!(transactions_root(&vec![]), Blake3::hash(b""));
    assert_eq!(transactions_root(&vec![vec![9u8]]), Blake3::hash(&[9]));
}

#[test]
fn new_block_is_unsigned_and_commits_to_its_transactions() {
    let transactions = vec![transfer(1), transfer(2)];
    let encodings = vec![vec![1u8], vec![2u8]];
    let block = Block::new(
        "parent".to_string(),
        11,
        12,
        "state".to_string(),
        transactions.clone(),
        &encodings,
        vec![7, 8],
    );
    assert_eq!(block.header.parent_hash, "parent");
    assert_eq!(block.header.timestamp, 11);
    assert_eq!(block.header.slot, 12);
    assert_eq!(block.header.state_root, "state");
    assert_eq!(block.header.transactions_root, transactions_root(&encodings));
    assert_eq!(block.header.validator_public_key, vec![7, 8]);
    assert!(block.header.signature.is_empty());
    assert_eq!(block.transactions, transactions);
}
