use vstd::prelude::*;
use crate::ledger::block::Block;
use crate::ledger::transaction::Transaction;
use crate::network::messages::NetworkMessage;

verus! {

/// What the node asks of the network service. A peer is given by the bytes
/// of its id, an address by its bytes.
#[derive(Debug)]
pub enum NetworkCommand {
    BroadcastBlock(Block),
    BroadcastTransaction(Transaction),
    Dial(Vec<u8>, Vec<u8>),
}

/// What the network service reports to the node.
#[derive(Debug)]
pub enum NetworkEvent {
    BlockReceived(Block),
    TransactionReceived(Transaction),
    PeerConnected(Vec<u8>),
    NewListenAddr(Vec<u8>),
}

/// The gossip topics: `blocks` and `transactions`.
#[derive(Debug, Clone, Copy, PartialEq, Eq, Structural)]
pub enum Topic {
    Blocks,
    Transactions,
}

impl Topic {
    pub fn name(&self) -> (name: String)
        ensures
            name@ == match *self {
                Topic::Blocks => "blocks"@,
                Topic::Transactions => "transactions"@,
            },
    {
        match self {
            Topic::Blocks => "blocks".to_string(),
            Topic::Transactions => "transactions".to_string(),
        }
    }
}

/// What the swarm tells the service.
#[derive(Debug)]
pub enum SwarmInput {
    /// Peers found on the local network, in the order found.
    PeersDiscovered(Vec<Vec<u8>>),
    /// A gossip message, decoded if its bytes were a message.
    MessageReceived(Option<NetworkMessage>),
    NewListenAddr(Vec<u8>),
    ConnectionEstablished(Vec<u8>),
    /// Anything else.
    Other,
}

/// What the service does in answer.
#[derive(Debug)]
pub enum Action {
    /// Keep this peer in the gossip mesh.
    AddExplicitPeer(Vec<u8>),
    /// Report to the node.
    Emit(NetworkEvent),
    /// Gossip a message on a topic.
    Publish(Topic, NetworkMessage),
    /// Dial an address.
    Dial(Vec<u8>),
    /// Leave the loop.
    Stop,
}

/// Whether `actions` greet `peer`: keep it in the mesh, then report it.
pub open spec fn greets(first: Action, second: Action, peer: Seq<u8>) -> bool {
    &&& first matches Action::AddExplicitPeer(p) && p@ == peer
    &&& second matches Action::Emit(NetworkEvent::PeerConnected(q)) && q@ == peer
}

fn copy_of(bytes: &Vec<u8>) -> (copy: Vec<u8>)
    ensures
        copy@ == bytes@,
{
    let mut copy: Vec<u8> = Vec::new();
    let mut i: usize = 0;
    while i < bytes.len()
        invariant
            i <= bytes@.len(),
            copy@ == bytes@.take(i as int),
        decreases bytes@.len() - i,
    {
        copy.push(bytes[i]);
        assert(bytes@.take(i + 1) =~= bytes@.take(i as int).push(bytes@[i as int]));
        i += 1;
    }
    assert(bytes@.take(i as int) =~= bytes@);
    copy
}

/// The answer of the service to what the swarm tells it.
///
/// Every peer discovered or connected is kept in the mesh and then reported,
/// in order. A decoded message is reported as the block or transaction it
/// holds, a new listen address as such. Nothing is done about a message that
/// did not decode, nor about anything else.
pub fn on_swarm_input(input: SwarmInput) -> (actions: Vec<Action>)
    ensures
        match input {
            SwarmInput::PeersDiscovered(peers) => actions@.len() == 2 * peers@.len() && forall|
                i: int,
            |
                0 <= i < peers@.len() ==> greets(
                    actions@[2 * i],
                    actions@[2 * i + 1],
                    (#[trigger] peers@[i])@,
                ),
            SwarmInput::MessageReceived(Some(NetworkMessage::Block(block))) => actions@.len() == 1
                && actions@[0] == Action::Emit(NetworkEvent::BlockReceived(block)),
            SwarmInput::MessageReceived(Some(NetworkMessage::Transaction(tx))) => actions@.len()
                == 1 && actions@[0] == Action::Emit(NetworkEvent::TransactionReceived(tx)),
            SwarmInput::MessageReceived(None) => actions@.len() == 0,
            SwarmInput::NewListenAddr(address) => actions@.len() == 1 && actions@[0]
                == Action::Emit(NetworkEvent::NewListenAddr(address)),
            SwarmInput::ConnectionEstablished(peer) => actions@.len() == 2 && greets(
                actions@[0],
                actions@[1],
                peer@,
            ),
            SwarmInput::Other => actions@.len() == 0,
        },
{
    let mut actions: Vec<Action> = Vec::new();
    match input {
        SwarmInput::PeersDiscovered(peers) => {
            let mut i: usize = 0;
            while i < peers.len()
                invariant
                    i <= peers@.len(),
                    actions@.len() == 2 * i,
                    forall|k: int|
                        0 <= k < i ==> greets(
                            actions@[2 * k],
                            actions@[2 * k + 1],
                            (#[trigger] peers@[k])@,
                        ),
                decreases peers@.len() - i,
            {
                actions.push(Action::AddExplicitPeer(copy_of(&peers[i])));
                actions.push(Action::Emit(NetworkEvent::PeerConnected(copy_of(&peers[i]))));
                i += 1;
            }
        },
        SwarmInput::MessageReceived(Some(NetworkMessage::Block(block))) => {
            actions.push(Action::Emit(NetworkEvent::BlockReceived(block)));
        },
        SwarmInput::MessageReceived(Some(NetworkMessage::Transaction(tx))) => {
            actions.push(Action::Emit(NetworkEvent::TransactionReceived(tx)));
        },
        SwarmInput::MessageReceived(None) => {},
        SwarmInput::NewListenAddr(address) => {
            actions.push(Action::Emit(NetworkEvent::NewListenAddr(address)));
        },
        SwarmInput::ConnectionEstablished(peer) => {
            actions.push(Action::AddExplicitPeer(copy_of(&peer)));
            actions.push(Action::Emit(NetworkEvent::PeerConnected(peer)));
        },
        SwarmInput::Other => {},
    }
    actions
}

/// The answer of the service to a command of the node, or to the end of the
/// commands: a block goes out on `blocks`, a transaction on `transactions`,
/// a dial goes to the address, and the service stops when the commands end.
pub fn on_command(command: Option<NetworkCommand>) -> (action: Action)
    ensures
        action == match command {
            Some(NetworkCommand::BroadcastBlock(block)) => Action::Publish(
                Topic::Blocks,
                NetworkMessage::Block(block),
            ),
            Some(NetworkCommand::BroadcastTransaction(tx)) => Action::Publish(
                Topic::Transactions,
                NetworkMessage::Transaction(tx),
            ),
            Some(NetworkCommand::Dial(_, address)) => Action::Dial(address),
            None => Action::Stop,
        },
{
    match command {
        Some(NetworkCommand::BroadcastBlock(block)) => Action::Publish(
            Topic::Blocks,
            NetworkMessage::Block(block),
        ),
        Some(NetworkCommand::BroadcastTransaction(tx)) => Action::Publish(
            Topic::Transactions,
            NetworkMessage::Transaction(tx),
        ),
        Some(NetworkCommand::Dial(_peer, address)) => Action::Dial(address),
        None => Action::Stop,
    }
}

} // verus!
