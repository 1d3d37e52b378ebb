use vajra::ledger::block::{Block, BlockHeader};
use vajra::security::fork_choice::{ForkChoice, HeaviestChainRule};
use vajra::security::slashing::{Misbehavior, SlashingManager};

fn mock_block() -> Block {
    Block {
        header: BlockHeader {
            parent_hash: "0".to_string(),
            timestamp: 0,
            slot: 0,
            state_root: "".to_string(),
            transactions_root: "".to_string(),
            validator_public_key: vec![],
            signature: vec![],
        },
        transactions: vec![],
    }
}

fn block_at(slot: u64) -> Block {
    let mut block = mock_block();
    block.header.slot = slot;
    block
}

#[test]
fn test_heaviest_chain() {
    let rule = HeaviestChainRule::new();

    let chain_short = vec![mock_block()];
    let chain_long = vec![mock_block(), mock_block()];

    // In this mocking, weight = length * 10
    // Short = 10, Long = 20

    let chains = vec![chain_short.clone(), chain_long.clone()];
    let best = rule.select_best_chain(&chains).unwrap();

    assert_eq!(best.len(), 2);
}

#[test]
fn first_of_the_heaviest_chains_wins() {
    let rule = HeaviestChainRule::new();
    let chains = vec![
        vec![block_at(1)],
        vec![block_at(2), block_at(3)],
        vec![block_at(4), block_at(5)],
        vec![],
    ];
    let best = rule.select_best_chain(&chains).unwrap();
    assert_eq!(best.len(), 2);
    assert_eq!(best[0].header.slot, 2);
}

#[test]
fn no_chain_is_chosen_among_empty_ones() {
    let rule = HeaviestChainRule::new();
    assert!(rule.select_best_chain(&[]).is_none());
    assert!(rule.select_best_chain(&[vec![], vec![]]).is_none());
}

#[test]
fn chain_weight_is_ten_a_block() {
    let rule = HeaviestChainRule::new();
    assert_eq!(rule.calculate_chain_weight(&[]), 0);
    assert_eq!(rule.calculate_chain_weight(&[mock_block(), mock_block(), mock_block()]), 30);
}

#[test]
fn test_double_sign_penalty() {
    let manager = SlashingManager::new(5, 100); // 5% penalty
    let stake = 1000;
    let penalty = manager.calculate_penalty(Misbehavior::DoubleSign, stake);
    assert_eq!(penalty, 50); // 5% of 1000 is 50
}

#[test]
fn test_downtime_penalty() {
    let manager = SlashingManager::new(5, 10); // 10 per block
    let penalty = manager.calculate_penalty(Misbehavior::Downtime(5), 0);
    assert_eq!(penalty, 50); // 5 blocks * 10 = 50
}

#[test]
fn double_sign_penalty_rounds_down() {
    let manager = SlashingManager::new(33, 100);
    assert_eq!(manager.calculate_penalty(Misbehavior::DoubleSign, 10), 3);
    assert_eq!(manager.calculate_penalty(Misbehavior::DoubleSign, 0), 0);
    assert_eq!(manager.double_sign_penalty_percent, 33);
    assert_eq!(manager.downtime_penalty_per_block, 100);
}

#[test]
fn double_sign_penalty_of_the_largest_stake() {
    let manager = SlashingManager::new(100, 0);
    assert_eq!(manager.calculate_penalty(Misbehavior::DoubleSign, u64::MAX), u64::MAX);
    let manager = SlashingManager::new(50, 0);
    assert_eq!(manager.calculate_penalty(Misbehavior::DoubleSign, u64::MAX), u64::MAX / 2);
}

#[test]
fn double_sign_penalty_above_the_stake_is_reduced() {
    // 200 % of 2^63 is 2^64, which is 0 modulo 2^64
    let manager = SlashingManager::new(200, 0);
    assert_eq!(manager.calculate_penalty(Misbehavior::DoubleSign, 1 << 63), 0);
    assert_eq!(manager.calculate_penalty(Misbehavior::DoubleSign, (1 << 63) + 1), 2);
    assert_eq!(manager.calculate_penalty(Misbehavior::DoubleSign, 10), 20);
}

#[test]
fn downtime_penalty_ignores_the_stake() {
    let manager = SlashingManager::new(5, 7);
    assert_eq!(manager.calculate_penalty(Misbehavior::Downtime(0), 1000), 0);
    assert_eq!(manager.calculate_penalty(Misbehavior::Downtime(3), 1000), 21);
}
