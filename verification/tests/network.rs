use vajra::ledger::block::{Block, BlockHeader};
use vajra::ledger::transaction::{Transaction, TransactionData, UtxoTransaction};
use vajra::network::messages::NetworkMessage;
use vajra::network::service::{
    on_command, on_swarm_input, Action, NetworkCommand, NetworkEvent, SwarmInput, Topic,
};

fn block(timestamp: u64) -> Block {
    Block {
        header: BlockHeader {
            parent_hash: "000".to_string(),
            timestamp,
            slot: 1,
            state_root: "root".to_string(),
            transactions_root: "tx_root".to_string(),
            validator_public_key: vec![],
            signature: vec![],
        },
        transactions: vec![],
    }
}

fn transaction(timestamp: u64) -> Transaction {
    Transaction {
        data: TransactionData::Utxo(UtxoTransaction { inputs: vec![], outputs: vec![], timestamp }),
    }
}

#[test]
fn discovered_peers_are_kept_and_reported_in_order() {
    let actions = on_swarm_input(SwarmInput::PeersDiscovered(vec![vec![1], vec![2, 3]]));
    assert_eq!(actions.len(), 4);
    assert!(matches!(&actions[0], Action::AddExplicitPeer(p) if p == &vec![1]));
    assert!(matches!(&actions[1], Action::Emit(NetworkEvent::PeerConnected(p)) if p == &vec![1]));
    assert!(matches!(&actions[2], Action::AddExplicitPeer(p) if p == &vec![2, 3]));
    assert!(matches!(&actions[3], Action::Emit(NetworkEvent::PeerConnected(p)) if p == &vec![2, 3]));
    assert!(on_swarm_input(SwarmInput::PeersDiscovered(vec![])).is_empty());
}

#[test]
fn connected_peer_is_kept_and_reported() {
    let actions = on_swarm_input(SwarmInput::ConnectionEstablished(vec![5, 6]));
    assert_eq!(actions.len(), 2);
    assert!(matches!(&actions[0], Action::AddExplicitPeer(p) if p == &vec![5, 6]));
    assert!(matches!(&actions[1], Action::Emit(NetworkEvent::PeerConnected(p)) if p == &vec![5, 6]));
}

#[test]
fn received_messages_are_reported() {
    let actions = on_swarm_input(SwarmInput::MessageReceived(Some(NetworkMessage::Block(block(
        123456,
    )))));
    assert_eq!(actions.len(), 1);
    assert!(
        matches!(&actions[0], Action::Emit(NetworkEvent::BlockReceived(b)) if b.header.timestamp == 123456)
    );
    let actions = on_swarm_input(SwarmInput::MessageReceived(Some(NetworkMessage::Transaction(
        transaction(9),
    ))));
    assert_eq!(actions.len(), 1);
    assert!(
        matches!(&actions[0], Action::Emit(NetworkEvent::TransactionReceived(t)) if t == &transaction(9))
    );
    assert!(on_swarm_input(SwarmInput::MessageReceived(None)).is_empty());
}

#[test]
fn listen_address_is_reported() {
    let actions = on_swarm_input(SwarmInput::NewListenAddr(vec![4, 127, 0, 0, 1]));
    assert_eq!(actions.len(), 1);
    assert!(
        matches!(&actions[0], Action::Emit(NetworkEvent::NewListenAddr(a)) if a == &vec![4, 127, 0, 0, 1])
    );
    assert!(on_swarm_input(SwarmInput::Other).is_empty());
}

#[test]
fn commands_become_actions() {
    assert!(matches!(
        on_command(Some(NetworkCommand::BroadcastBlock(block(1)))),
        Action::Publish(Topic::Blocks, NetworkMessage::Block(b)) if b == block(1)
    ));
    assert!(matches!(
        on_command(Some(NetworkCommand::BroadcastTransaction(transaction(2)))),
        Action::Publish(Topic::Transactions, NetworkMessage::Transaction(t)) if t == transaction(2)
    ));
    assert!(matches!(
        on_command(Some(NetworkCommand::Dial(vec![1], vec![2, 3]))),
        Action::Dial(a) if a == vec![2, 3]
    ));
    assert!(matches!(on_command(None), Action::Stop));
}

#[test]
fn topic_names() {
    assert_eq!(Topic::Blocks.name(), "blocks");
    assert_eq!(Topic::Transactions.name(), "transactions");
}
