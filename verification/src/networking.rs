//! What a node does with one message from a peer.
//!
//! One connection carries one message. The caller reads and decodes it,
//! hands it over together with the address it came from, and then carries
//! out the reaction: it writes the reply back on the same connection, or
//! sends the message on to each peer named, skipping those it cannot reach.
//! A payload that cannot be decoded never gets here, so it leaves the chain
//! untouched.

use crate::blockchain::{
    clone_texts, is_add_block_outcome, is_linked, lemma_add_block_keeps_links, text_models,
    Blockchain, BlockchainModel,
};
use crate::clock::current_timestamp;
use crate::custom_error::CustomError;
use crate::messages::{Message, MessageModel};
use crate::transaction::{clone_transactions, transaction_models, Transaction};
use vstd::prelude::*;

verus! {

/// The most bytes that are read from one connection. A message that does
/// not fit is cut off there and does not decode.
pub const RECEIVE_BUFFER_SIZE: usize = 1024;

/// What is to be done after a message has been handled.
#[derive(Debug)]
pub struct Reaction {
    /// The snapshot to write back on the same connection, if one was
    /// asked for.
    pub reply: Option<Blockchain>,
    /// The message to send on, if any.
    pub flood: Option<Message>,
    /// The peers to send it to, in order.
    pub targets: Vec<String>,
    /// Why no block was added, where one was called for and refused.
    pub failure: Option<CustomError>,
}

/// What a reaction is, as mathematics.
pub struct ReactionModel {
    pub reply: Option<BlockchainModel>,
    pub flood: Option<MessageModel>,
    pub targets: Seq<Seq<char>>,
    pub failure: Option<Seq<char>>,
}

impl View for Reaction {
    type V = ReactionModel;

    open spec fn view(&self) -> ReactionModel {
        ReactionModel {
            reply: match self.reply {
                Some(snapshot) => Some(snapshot@),
                None => None,
            },
            flood: match self.flood {
                Some(message) => Some(message@),
                None => None,
            },
            targets: text_models(self.targets@),
            failure: match self.failure {
                Some(error) => Some(error@),
                None => None,
            },
        }
    }
}

/// The reaction that sends nothing.
pub open spec fn silence() -> ReactionModel {
    ReactionModel { reply: None, flood: None, targets: Seq::empty(), failure: None }
}

/// The peers other than the one a message came from, in order.
pub open spec fn peers_except(peers: Seq<Seq<char>>, sender: Seq<char>) -> Seq<Seq<char>> {
    peers.filter(|peer: Seq<char>| peer != sender)
}

/// Whether the message is one that has a block mined.
pub open spec fn calls_for_mining(message: MessageModel) -> bool {
    message is NewTransaction || message is BroadcastBlock
}

/// What handling `message` from `sender` at `timestamp` does to the chain,
/// and the reaction it calls for.
///
/// * A request for the chain is answered with a snapshot of it.
/// * An offered chain replaces the node's own if it is linked and strictly
///   longer; nothing is sent.
/// * A new transaction is mined into a block of its own; whether or not
///   that succeeds, the transaction is broadcast to every peer.
/// * A broadcast transaction that passes the admission rule joins the
///   pending pool and goes on to every peer but the sender; one that fails
///   is dropped.
/// * The transactions of a broadcast block are mined into a block of the
///   node's own; if that succeeds, the block as it was received goes on to
///   every peer but the sender.
pub open spec fn is_handled(
    before: BlockchainModel,
    message: MessageModel,
    sender: Seq<char>,
    timestamp: i64,
    after: BlockchainModel,
    reaction: ReactionModel,
) -> bool {
    match message {
        MessageModel::RequestBlockchain => {
            &&& after == before
            &&& reaction == ReactionModel { reply: Some(before), ..silence() }
        },
        MessageModel::SendBlockchain(blocks) => {
            &&& after == before.replaced_if_longer(blocks)
            &&& reaction == silence()
        },
        MessageModel::NewTransaction(transaction) => {
            &&& is_add_block_outcome(
                before,
                seq![transaction],
                timestamp,
                after,
                reaction.failure,
            )
            &&& reaction.reply is None
            &&& reaction.flood == Some(MessageModel::BroadcastTransaction(transaction))
            &&& reaction.targets == before.peers
        },
        MessageModel::BroadcastTransaction(transaction) => {
            if transaction.is_valid() {
                &&& after == BlockchainModel {
                    pending_transactions: before.pending_transactions.push(transaction),
                    ..before
                }
                &&& reaction == ReactionModel {
                    flood: Some(message),
                    targets: peers_except(before.peers, sender),
                    ..silence()
                }
            } else {
                &&& after == before
                &&& reaction == silence()
            }
        },
        MessageModel::BroadcastBlock(block) => {
            &&& is_add_block_outcome(
                before,
                block.transactions,
                timestamp,
                after,
                reaction.failure,
            )
            &&& reaction.reply is None
            &&& if reaction.failure is None {
                &&& reaction.flood == Some(message)
                &&& reaction.targets == peers_except(before.peers, sender)
            } else {
                &&& reaction.flood is None
                &&& reaction.targets == Seq::<Seq<char>>::empty()
            }
        },
    }
}

/// Whatever the message and whoever sent it, handling it leaves a linked
/// chain linked and takes no block away.
pub proof fn lemma_handling_keeps_links(
    before: BlockchainModel,
    message: MessageModel,
    sender: Seq<char>,
    timestamp: i64,
    after: BlockchainModel,
    reaction: ReactionModel,
)
    requires
        is_linked(before.chain),
        calls_for_mining(message) ==> before.chain.len() > 0,
        is_handled(before, message, sender, timestamp, after, reaction),
    ensures
        is_linked(after.chain),
        after.chain.len() >= before.chain.len(),
{
    match message {
        MessageModel::NewTransaction(transaction) => {
            lemma_add_block_keeps_links(
                before,
                seq![transaction],
                timestamp,
                after,
                reaction.failure,
            );
        },
        MessageModel::BroadcastBlock(block) => {
            lemma_add_block_keeps_links(
                before,
                block.transactions,
                timestamp,
                after,
                reaction.failure,
            );
        },
        _ => {},
    }
}

/// The peers other than `sender`, in order.
pub fn other_peers(peers: &Vec<String>, sender: &str) -> (targets: Vec<String>)
    ensures
        text_models(targets@) == peers_except(text_models(peers@), sender@),
{
    let origin: String = sender.to_owned();
    let ghost others = |peer: Seq<char>| peer != sender@;
    let ghost all = text_models(peers@);
    let mut targets: Vec<String> = Vec::new();
    let mut i: usize = 0;
    proof {
        reveal(Seq::filter);
    }
    while i < peers.len()
        invariant
            i <= peers@.len(),
            origin@ == sender@,
            others == |peer: Seq<char>| peer != sender@,
            all == text_models(peers@),
            text_models(targets@) == all.take(i as int).filter(others),
        decreases peers@.len() - i,
    {
        let peer = &peers[i];
        proof {
            reveal(Seq::filter);
            let next = all.take(i + 1);
            assert(next.drop_last() == all.take(i as int));
            assert(next.last() == peer@);
        }
        if !(*peer == origin) {
            let ghost before = text_models(targets@);
            targets.push(peer.clone());
            assert(text_models(targets@) =~= before.push(peer@));
        }
        i += 1;
    }
    assert(all.take(i as int) == all);
    targets
}

/// The error, if any, of an attempt to add a block.
fn failure_of(outcome: Result<(), &'static str>) -> (failure: Option<CustomError>)
    ensures
        match failure {
            Some(error) => outcome matches Err(message) && error@ == message@,
            None => outcome is Ok,
        },
{
    match outcome {
        Ok(_) => None,
        Err(message) => Some(CustomError::new(message)),
    }
}

/// Handles one message from the peer at `sender`, stamping a block that it
/// mines with the current time.
pub fn handle_message(chain: &mut Blockchain, message: Message, sender: &str) -> (reaction:
    Reaction)
    requires
        calls_for_mining(message@) ==> old(chain)@.can_grow(),
    ensures
        exists|timestamp: i64|
            is_handled(old(chain)@, message@, sender@, timestamp, final(chain)@, reaction@),
{
    let timestamp = current_timestamp();
    handle_message_at(chain, message, sender, timestamp)
}

/// Handles one message from the peer at `sender`, stamping a block that it
/// mines with `timestamp`.
pub fn handle_message_at(
    chain: &mut Blockchain,
    message: Message,
    sender: &str,
    timestamp: i64,
) -> (reaction: Reaction)
    requires
        calls_for_mining(message@) ==> old(chain)@.can_grow(),
    ensures
        is_handled(old(chain)@, message@, sender@, timestamp, final(chain)@, reaction@),
{
    match message {
        Message::RequestBlockchain => {
            let snapshot = chain.clone();
            let targets: Vec<String> = Vec::new();
            assert(text_models(targets@) =~= Seq::<Seq<char>>::empty());
            Reaction { reply: Some(snapshot), flood: None, targets, failure: None }
        },
        Message::SendBlockchain(blocks) => {
            chain.replace_if_longer(blocks);
            let targets: Vec<String> = Vec::new();
            assert(text_models(targets@) =~= Seq::<Seq<char>>::empty());
            Reaction { reply: None, flood: None, targets, failure: None }
        },
        Message::NewTransaction(transaction) => {
            let mut transactions: Vec<Transaction> = Vec::new();
            transactions.push(transaction.clone());
            assert(transaction_models(transactions@) =~= seq![transaction@]);
            let targets = clone_texts(&chain.peers);
            let outcome = chain.add_block_at(transactions, timestamp);
            Reaction {
                reply: None,
                flood: Some(Message::BroadcastTransaction(transaction)),
                targets,
                failure: failure_of(outcome),
            }
        },
        Message::BroadcastTransaction(transaction) => {
            if chain.validate_transaction(&transaction) {
                let targets = other_peers(&chain.peers, sender);
                chain.add_transaction(transaction.clone());
                Reaction {
                    reply: None,
                    flood: Some(Message::BroadcastTransaction(transaction)),
                    targets,
                    failure: None,
                }
            } else {
                let targets: Vec<String> = Vec::new();
                assert(text_models(targets@) =~= Seq::<Seq<char>>::empty());
                Reaction { reply: None, flood: None, targets, failure: None }
            }
        },
        Message::BroadcastBlock(block) => {
            let transactions = clone_transactions(&block.transactions);
            let outcome = chain.add_block_at(transactions, timestamp);
            match outcome {
                Ok(_) => {
                    let targets = other_peers(&chain.peers, sender);
                    Reaction {
                        reply: None,
                        flood: Some(Message::BroadcastBlock(block)),
                        targets,
                        failure: None,
                    }
                },
                Err(message) => {
                    let targets: Vec<String> = Vec::new();
                    assert(text_models(targets@) =~= Seq::<Seq<char>>::empty());
                    Reaction {
                        reply: None,
                        flood: None,
                        targets,
                        failure: Some(CustomError::new(message)),
                    }
                },
            }
        },
    }
}

} // verus!
