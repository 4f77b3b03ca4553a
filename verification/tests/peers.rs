use p2p_ledger::messages::Message;
use p2p_ledger::peers::{contains_text, seed_nodes, PeerRegistry};

#[test]
fn registry_starts_with_the_seed_nodes() {
    assert_eq!(seed_nodes(), vec!["127.0.0.1:8000", "127.0.0.1:8001"]);
    let registry = PeerRegistry::new();
    assert_eq!(registry.get_peers(), vec!["127.0.0.1:8000", "127.0.0.1:8001"]);
    assert!(!registry.is_active("127.0.0.1:8000"));
}

#[test]
fn add_peer_learns_an_address_once() {
    let mut registry = PeerRegistry::new();
    registry.add_peer(String::from("10.0.0.1:9000"));
    registry.add_peer(String::from("127.0.0.1:8001"));
    registry.add_peer(String::from("10.0.0.1:9000"));
    assert_eq!(
        registry.get_peers(),
        vec!["127.0.0.1:8000", "127.0.0.1:8001", "10.0.0.1:9000"]
    );
}

#[test]
fn dial_targets_skip_the_node_itself_and_connected_peers() {
    let mut registry = PeerRegistry::new();
    registry.add_peer(String::from("10.0.0.1:9000"));
    assert_eq!(
        registry.dial_targets("127.0.0.1:8000"),
        vec!["127.0.0.1:8001", "10.0.0.1:9000"]
    );
    assert_eq!(registry.dial_targets("127.0.0.1:7000").len(), 3);

    registry.mark_connected("10.0.0.1:9000");
    assert_eq!(registry.dial_targets("127.0.0.1:8000"), vec!["127.0.0.1:8001"]);
    registry.mark_connected("127.0.0.1:8001");
    assert!(registry.dial_targets("127.0.0.1:8000").is_empty());
    assert_eq!(registry.get_peers().len(), 3);
}

#[test]
fn mark_connected_records_the_peer_and_asks_for_its_chain() {
    let mut registry = PeerRegistry::new();
    let greeting = registry.mark_connected("127.0.0.1:8001");
    assert!(matches!(greeting, Message::RequestBlockchain));
    assert!(registry.is_active("127.0.0.1:8001"));
    assert!(!registry.is_active("127.0.0.1:8000"));

    let again = registry.mark_connected("127.0.0.1:8001");
    assert!(matches!(again, Message::RequestBlockchain));
    assert!(registry.is_active("127.0.0.1:8001"));

    registry.mark_connected("198.51.100.7:1");
    assert!(registry.is_active("198.51.100.7:1"));
    assert_eq!(registry.get_peers(), vec!["127.0.0.1:8000", "127.0.0.1:8001"]);
}

#[test]
fn contains_text_finds_equal_strings() {
    let texts = vec![String::from("a"), String::from("b")];
    assert!(contains_text(&texts, &String::from("b")));
    assert!(!contains_text(&texts, &String::from("ab")));
    assert!(!contains_text(&Vec::new(), &String::from("")));
}
