//! The peers that a node knows and those it has reached.

use crate::blockchain::{clone_texts, text_models};
use crate::messages::{Message, MessageModel};
use vstd::prelude::*;

verus! {

/// The addresses that every node knows from the start.
pub open spec fn seed_addresses() -> Seq<Seq<char>> {
    seq!["127.0.0.1:8000"@, "127.0.0.1:8001"@]
}

/// Whether a peer is one to dial from the node at `own_address`: it is
/// another node, and no connection to it has been made.
pub open spec fn is_dial_target(
    peer: Seq<char>,
    own_address: Seq<char>,
    connected: Set<Seq<char>>,
) -> bool {
    peer != own_address && !connected.contains(peer)
}

/// The known addresses, in the order in which they were learned, and the
/// set of those to which a connection has been made.
#[derive(Debug)]
pub struct PeerRegistry {
    peers: Vec<String>,
    active: Vec<String>,
}

/// Whether `needle` is one of `texts`.
pub fn contains_text(texts: &Vec<String>, needle: &String) -> (found: bool)
    ensures
        found == text_models(texts@).contains(needle@),
{
    let mut i: usize = 0;
    while i < texts.len()
        invariant
            i <= texts@.len(),
            forall|j: int| 0 <= j < i ==> text_models(texts@)[j] != needle@,
        decreases texts@.len() - i,
    {
        if texts[i] == *needle {
            assert(text_models(texts@)[i as int] == needle@);
            return true;
        }
        i += 1;
    }
    false
}

/// The addresses that every node knows from the start.
pub fn seed_nodes() -> (seeds: Vec<String>)
    ensures
        text_models(seeds@) == seed_addresses(),
{
    let mut seeds: Vec<String> = Vec::new();
    seeds.push("127.0.0.1:8000".to_owned());
    seeds.push("127.0.0.1:8001".to_owned());
    assert(text_models(seeds@) =~= seed_addresses());
    seeds
}

impl PeerRegistry {
    /// No address is held twice, neither as known nor as connected.
    pub closed spec fn wf(&self) -> bool {
        &&& text_models(self.peers@).no_duplicates()
        &&& text_models(self.active@).no_duplicates()
    }

    /// The known addresses, oldest first.
    pub closed spec fn known(&self) -> Seq<Seq<char>> {
        text_models(self.peers@)
    }

    /// The addresses to which a connection has been made.
    pub closed spec fn connected(&self) -> Set<Seq<char>> {
        text_models(self.active@).to_set()
    }

    /// A registry that knows the seed nodes and has reached none.
    pub fn new() -> (registry: Self)
        ensures
            registry.wf(),
            registry.known() == seed_addresses(),
            registry.connected() == Set::<Seq<char>>::empty(),
    {
        let peers = seed_nodes();
        proof {
            reveal_strlit("127.0.0.1:8000");
            reveal_strlit("127.0.0.1:8001");
            assert("127.0.0.1:8000"@[13] != "127.0.0.1:8001"@[13]);
        }
        let active: Vec<String> = Vec::new();
        assert(text_models(active@).to_set() =~= Set::<Seq<char>>::empty());
        PeerRegistry { peers, active }
    }

    /// Learns an address, unless it is known already.
    pub fn add_peer(&mut self, address: String)
        requires
            old(self).wf(),
        ensures
            final(self).wf(),
            final(self).known() == if old(self).known().contains(address@) {
                old(self).known()
            } else {
                old(self).known().push(address@)
            },
            final(self).connected() == old(self).connected(),
    {
        if !contains_text(&self.peers, &address) {
            let ghost before = text_models(self.peers@);
            self.peers.push(address);
            assert(text_models(self.peers@) =~= before.push(address@));
        }
    }

    /// A copy of the known addresses.
    pub fn get_peers(&self) -> (peers: Vec<String>)
        ensures
            text_models(peers@) == self.known(),
    {
        clone_texts(&self.peers)
    }

    /// Whether a connection to `address` has been made.
    pub fn is_active(&self, address: &str) -> (active: bool)
        ensures
            active == self.connected().contains(address@),
    {
        let needle: String = address.to_owned();
        contains_text(&self.active, &needle)
    }

    /// The peers to dial from the node at `current_node_address`: the known
    /// addresses other than its own to which no connection has been made,
    /// oldest first.
    pub fn dial_targets(&self, current_node_address: &str) -> (targets: Vec<String>)
        ensures
            text_models(targets@) == self.known().filter(
                |peer: Seq<char>| is_dial_target(peer, current_node_address@, self.connected()),
            ),
    {
        let own: String = current_node_address.to_owned();
        let ghost wanted = |peer: Seq<char>|
            is_dial_target(peer, current_node_address@, self.connected());
        let mut targets: Vec<String> = Vec::new();
        let mut i: usize = 0;
        proof {
            reveal(Seq::filter);
        }
        while i < self.peers.len()
            invariant
                i <= self.peers@.len(),
                own@ == current_node_address@,
                wanted == |peer: Seq<char>|
                    is_dial_target(peer, current_node_address@, self.connected()),
                text_models(targets@) == self.known().take(i as int).filter(wanted),
            decreases self.peers@.len() - i,
        {
            let peer = &self.peers[i];
            proof {
                reveal(Seq::filter);
                let next = self.known().take(i + 1);
                assert(next.drop_last() == self.known().take(i as int));
                assert(next.last() == peer@);
            }
            if !(*peer == own) && !contains_text(&self.active, peer) {
                let ghost before = text_models(targets@);
                targets.push(peer.clone());
                assert(text_models(targets@) =~= before.push(peer@));
            }
            i += 1;
        }
        assert(self.known().take(i as int) == self.known());
        targets
    }

    /// Records that a connection to `address` has been made, and gives the
    /// message to open it with: a request for the peer's chain.
    pub fn mark_connected(&mut self, address: &str) -> (greeting: Message)
        requires
            old(self).wf(),
        ensures
            final(self).wf(),
            final(self).connected() == old(self).connected().insert(address@),
            final(self).known() == old(self).known(),
            greeting@ == MessageModel::RequestBlockchain,
    {
        let peer: String = address.to_owned();
        if !contains_text(&self.active, &peer) {
            let ghost before = text_models(self.active@);
            self.active.push(peer);
            assert(text_models(self.active@) =~= before.push(address@));
            assert(before.push(address@).to_set() =~= before.to_set().insert(address@)) by {
                assert forall|a: Seq<char>|
                    before.push(address@).contains(a) <==> before.to_set().insert(
                        address@,
                    ).contains(a) by {
                    if before.push(address@).contains(a) {
                        let k = choose|k: int|
                            0 <= k < before.push(address@).len() && before.push(address@)[k] == a;
                        if k < before.len() {
                            assert(before[k] == a);
                        }
                    }
                    if before.contains(a) {
                        let k = choose|k: int| 0 <= k < before.len() && before[k] == a;
                        assert(before.push(address@)[k] == a);
                    }
                    if a == address@ {
                        assert(before.push(address@)[before.len() as int] == a);
                    }
                }
            }
        } else {
            assert(old(self).connected().insert(address@) =~= old(self).connected());
        }
        Message::RequestBlockchain
    }
}

} // verus!
