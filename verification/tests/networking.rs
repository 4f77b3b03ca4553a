use p2p_ledger::block::Block;
use p2p_ledger::blockchain::Blockchain;
use p2p_ledger::messages::Message;
use p2p_ledger::networking::{handle_message, handle_message_at, other_peers, RECEIVE_BUFFER_SIZE};
use p2p_ledger::transaction::Transaction;
use serde_json::{Number, Value};

const GENESIS_HASH: &str = "2275a3de822eb41385eabe14d70c3485d769af8b8346c9e9dcd11e7c2e42475e";
const FIRST_HASH: &str = "0000e86f3ea4c2302b40538b1082857654c0906a556daa282a2eb9095382068c";

fn pay(sender: &str, receiver: &str, amount: f64) -> Transaction {
    Transaction {
        sender: sender.to_string(),
        receiver: receiver.to_string(),
        amount: amount.to_bits(),
    }
}

fn node_with_peers() -> Blockchain {
    let mut blockchain = Blockchain::new();
    blockchain.peers.push(String::from("10.0.0.1:8000"));
    blockchain.peers.push(String::from("10.0.0.2:8000"));
    blockchain.peers.push(String::from("10.0.0.3:8000"));
    blockchain
}

fn transaction_to_value(transaction: &Transaction) -> Value {
    let mut fields = serde_json::Map::new();
    fields.insert(String::from("sender"), Value::String(transaction.sender.clone()));
    fields.insert(String::from("receiver"), Value::String(transaction.receiver.clone()));
    fields.insert(
        String::from("amount"),
        Value::Number(Number::from_f64(f64::from_bits(transaction.amount)).unwrap()),
    );
    Value::Object(fields)
}

fn block_to_value(block: &Block) -> Value {
    let mut fields = serde_json::Map::new();
    fields.insert(String::from("index"), Value::Number(Number::from(block.index)));
    fields.insert(String::from("timestamp"), Value::Number(Number::from(block.timestamp)));
    fields.insert(String::from("nonce"), Value::Number(Number::from(block.nonce)));
    fields.insert(String::from("previous_hash"), Value::String(block.previous_hash.clone()));
    fields.insert(String::from("hash"), Value::String(block.hash.clone()));
    fields.insert(
        String::from("transactions"),
        Value::Array(block.transactions.iter().map(transaction_to_value).collect()),
    );
    Value::Object(fields)
}

fn chain_to_value(blockchain: &Blockchain) -> Value {
    let mut fields = serde_json::Map::new();
    fields.insert(
        String::from("chain"),
        Value::Array(blockchain.chain.iter().map(block_to_value).collect()),
    );
    fields.insert(
        String::from("peers"),
        Value::Array(blockchain.peers.iter().cloned().map(Value::String).collect()),
    );
    fields.insert(
        String::from("pending_transactions"),
        Value::Array(blockchain.pending_transactions.iter().map(transaction_to_value).collect()),
    );
    fields.insert(
        String::from("difficulty"),
        Value::Number(Number::from(blockchain.difficulty)),
    );
    Value::Object(fields)
}

fn transaction_from_value(value: &Value) -> Transaction {
    Transaction {
        sender: value["sender"].as_str().unwrap().to_string(),
        receiver: value["receiver"].as_str().unwrap().to_string(),
        amount: value["amount"].as_f64().unwrap().to_bits(),
    }
}

fn block_from_value(value: &Value) -> Block {
    Block {
        index: value["index"].as_u64().unwrap() as u32,
        timestamp: value["timestamp"].as_i64().unwrap(),
        nonce: value["nonce"].as_u64().unwrap() as u32,
        previous_hash: value["previous_hash"].as_str().unwrap().to_string(),
        hash: value["hash"].as_str().unwrap().to_string(),
        transactions: value["transactions"]
            .as_array()
            .unwrap()
            .iter()
            .map(transaction_from_value)
            .collect(),
    }
}

#[test]
fn receive_buffer_holds_one_kibibyte() {
    assert_eq!(RECEIVE_BUFFER_SIZE, 1024);
}

#[test]
fn request_is_answered_with_a_snapshot_and_changes_nothing() {
    let mut blockchain = node_with_peers();
    blockchain.add_transaction(pay("Alice", "Bob", 1.0));
    let before = format!("{:?}", blockchain);

    let reaction = handle_message(&mut blockchain, Message::RequestBlockchain, "10.0.0.2:8000");

    assert_eq!(format!("{:?}", blockchain), before);
    assert_eq!(format!("{:?}", reaction.reply.unwrap()), before);
    assert!(reaction.flood.is_none());
    assert!(reaction.targets.is_empty());
    assert!(reaction.failure.is_none());
}

#[test]
fn scenario_snapshot_of_three_blocks_survives_the_wire() {
    let mut blockchain = Blockchain::new();
    blockchain
        .add_block_at(vec![pay("Alice", "Bob", 50.0)], 1_700_000_000)
        .unwrap();
    blockchain
        .add_block_at(vec![pay("Bob", "Carol", 0.1), pay("Carol", "Alice", 1e-7)], 1_700_000_001)
        .unwrap();
    assert_eq!(blockchain.chain.len(), 3);

    let reaction = handle_message(&mut blockchain, Message::RequestBlockchain, "10.0.0.9:1");
    let snapshot = reaction.reply.unwrap();
    let wire = serde_json::to_string(&chain_to_value(&snapshot)).unwrap();

    let decoded: Value = serde_json::from_str(&wire).unwrap();
    let blocks: Vec<Block> = decoded["chain"]
        .as_array()
        .unwrap()
        .iter()
        .map(block_from_value)
        .collect();

    assert_eq!(blocks.len(), 3);
    assert_eq!(format!("{:?}", blocks), format!("{:?}", blockchain.chain));
    assert_eq!(blocks[1].hash, FIRST_HASH);
    let received = blockchain.from(blocks);
    assert!(received.is_chain_valid());
}

#[test]
fn offered_chain_replaces_a_shorter_one() {
    let mut blockchain = node_with_peers();
    let mut longer = Blockchain::new();
    longer
        .add_block_at(vec![pay("Alice", "Bob", 50.0)], 1_700_000_000)
        .unwrap();

    let reaction = handle_message(
        &mut blockchain,
        Message::SendBlockchain(longer.chain.clone()),
        "10.0.0.1:8000",
    );

    assert_eq!(blockchain.chain.len(), 2);
    assert_eq!(blockchain.chain[1].hash, FIRST_HASH);
    assert_eq!(blockchain.peers.len(), 3);
    assert!(reaction.reply.is_none());
    assert!(reaction.flood.is_none());
    assert!(reaction.targets.is_empty());
    assert!(reaction.failure.is_none());
}

#[test]
fn scenario_tie_between_two_chains_keeps_the_incumbent() {
    let mut node_a = Blockchain::new();
    let mut node_b = Blockchain::new();
    node_a
        .add_block_at(vec![pay("Alice", "Bob", 50.0)], 1_700_000_000)
        .unwrap();
    node_b
        .add_block_at(vec![pay("Carol", "Dave", 7.5)], 1_700_000_005)
        .unwrap();
    let incumbent = node_b.chain[1].hash.clone();
    assert_ne!(node_a.chain[1].hash, incumbent);

    let reaction = handle_message(
        &mut node_b,
        Message::SendBlockchain(node_a.chain.clone()),
        "10.0.0.1:8000",
    );

    assert_eq!(node_b.chain.len(), 2);
    assert_eq!(node_b.chain[1].hash, incumbent);
    assert_eq!(node_b.chain[1].transactions[0].sender, "Carol");
    assert!(reaction.flood.is_none());
    assert!(reaction.reply.is_none());
}

#[test]
fn offered_chain_with_a_broken_seal_is_ignored() {
    let mut blockchain = Blockchain::new();
    let mut longer = Blockchain::new();
    longer.add_block_at(Vec::new(), 1_700_000_000).unwrap();
    longer.chain[1].nonce = 1;

    handle_message(&mut blockchain, Message::SendBlockchain(longer.chain), "10.0.0.1:8000");
    assert_eq!(blockchain.chain.len(), 1);
    assert_eq!(blockchain.chain[0].hash, GENESIS_HASH);
}

#[test]
fn new_transaction_is_mined_and_broadcast_to_every_peer() {
    let mut blockchain = node_with_peers();
    let reaction = handle_message_at(
        &mut blockchain,
        Message::NewTransaction(pay("Alice", "Bob", 50.0)),
        "10.0.0.2:8000",
        1_700_000_000,
    );

    assert_eq!(blockchain.chain.len(), 2);
    assert_eq!(blockchain.chain[1].hash, FIRST_HASH);
    assert_eq!(blockchain.chain[1].nonce, 21219);
    assert!(blockchain.pending_transactions.is_empty());
    assert!(reaction.reply.is_none());
    assert!(reaction.failure.is_none());
    assert_eq!(
        reaction.targets,
        vec!["10.0.0.1:8000", "10.0.0.2:8000", "10.0.0.3:8000"]
    );
    match reaction.flood {
        Some(Message::BroadcastTransaction(transaction)) => {
            assert_eq!(transaction.sender, "Alice");
            assert_eq!(transaction.receiver, "Bob");
            assert_eq!(transaction.amount, 50.0f64.to_bits());
        }
        other => panic!("unexpected flood: {:?}", other),
    }
}

#[test]
fn new_transaction_that_is_invalid_is_broadcast_all_the_same() {
    let mut blockchain = node_with_peers();
    let reaction = handle_message(
        &mut blockchain,
        Message::NewTransaction(pay("Alice", "Alice", 50.0)),
        "10.0.0.2:8000",
    );

    assert_eq!(blockchain.chain.len(), 1);
    assert_eq!(reaction.failure.unwrap().to_string(), "Invalid transactions");
    assert_eq!(reaction.targets.len(), 3);
    assert!(matches!(reaction.flood, Some(Message::BroadcastTransaction(_))));
}

#[test]
fn broadcast_transaction_joins_the_pool_and_goes_on_to_the_others() {
    let mut blockchain = node_with_peers();
    let reaction = handle_message(
        &mut blockchain,
        Message::BroadcastTransaction(pay("Alice", "Bob", 50.0)),
        "10.0.0.2:8000",
    );

    assert_eq!(blockchain.chain.len(), 1);
    assert_eq!(blockchain.pending_transactions.len(), 1);
    assert_eq!(blockchain.pending_transactions[0].sender, "Alice");
    assert_eq!(reaction.targets, vec!["10.0.0.1:8000", "10.0.0.3:8000"]);
    assert!(reaction.reply.is_none());
    assert!(reaction.failure.is_none());
    match reaction.flood {
        Some(Message::BroadcastTransaction(transaction)) => {
            assert_eq!(transaction.receiver, "Bob");
            assert_eq!(transaction.amount, 50.0f64.to_bits());
        }
        other => panic!("unexpected flood: {:?}", other),
    }
}

#[test]
fn broadcast_transaction_that_is_invalid_is_dropped() {
    let mut blockchain = node_with_peers();
    let reaction = handle_message(
        &mut blockchain,
        Message::BroadcastTransaction(pay("Alice", "Bob", 0.0)),
        "10.0.0.2:8000",
    );

    assert!(blockchain.pending_transactions.is_empty());
    assert_eq!(blockchain.chain.len(), 1);
    assert!(reaction.flood.is_none());
    assert!(reaction.targets.is_empty());
    assert!(reaction.reply.is_none());
    assert!(reaction.failure.is_none());
}

#[test]
fn broadcast_block_is_mined_again_and_passed_on_as_received() {
    let mut blockchain = node_with_peers();
    let received = Block::new(
        17,
        5,
        123,
        String::from("elsewhere"),
        vec![pay("Alice", "Bob", 50.0)],
    );
    let received_hash = received.hash.clone();

    let reaction = handle_message_at(
        &mut blockchain,
        Message::BroadcastBlock(received),
        "10.0.0.3:8000",
        1_700_000_000,
    );

    assert_eq!(blockchain.chain.len(), 2);
    assert_eq!(blockchain.chain[1].index, 1);
    assert_eq!(blockchain.chain[1].timestamp, 1_700_000_000);
    assert_eq!(blockchain.chain[1].previous_hash, GENESIS_HASH);
    assert_eq!(blockchain.chain[1].hash, FIRST_HASH);
    assert!(blockchain.is_chain_valid());
    assert_eq!(reaction.targets, vec!["10.0.0.1:8000", "10.0.0.2:8000"]);
    assert!(reaction.failure.is_none());
    assert!(reaction.reply.is_none());
    match reaction.flood {
        Some(Message::BroadcastBlock(block)) => {
            assert_eq!(block.index, 17);
            assert_eq!(block.nonce, 123);
            assert_eq!(block.hash, received_hash);
        }
        other => panic!("unexpected flood: {:?}", other),
    }
}

#[test]
fn broadcast_block_with_an_invalid_transaction_is_not_passed_on() {
    let mut blockchain = node_with_peers();
    let received = Block::new(1, 5, 0, String::from(GENESIS_HASH), vec![pay("", "Bob", 50.0)]);

    let reaction = handle_message(&mut blockchain, Message::BroadcastBlock(received), "10.0.0.3:8000");

    assert_eq!(blockchain.chain.len(), 1);
    assert_eq!(reaction.failure.unwrap().to_string(), "Invalid transactions");
    assert!(reaction.flood.is_none());
    assert!(reaction.targets.is_empty());
    assert!(reaction.reply.is_none());
}

#[test]
fn other_peers_leaves_out_every_entry_of_the_sender() {
    let peers = vec![
        String::from("a:1"),
        String::from("b:2"),
        String::from("a:1"),
        String::from("c:3"),
    ];
    assert_eq!(other_peers(&peers, "a:1"), vec!["b:2", "c:3"]);
    assert_eq!(other_peers(&peers, "d:4"), peers);
    assert!(other_peers(&Vec::new(), "a:1").is_empty());
    assert!(other_peers(&vec![String::from("a:1")], "a:1").is_empty());
}
