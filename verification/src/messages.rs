//! The messages that peers exchange.

use crate::block::{block_models, Block, BlockModel};
use crate::transaction::{Transaction, TransactionModel};
use vstd::prelude::*;

verus! {

/// One message: the whole payload of one connection.
#[derive(Debug)]
pub enum Message {
    /// Asks the receiver for its full chain.
    RequestBlockchain,
    /// A full chain, offered in place of the receiver's.
    SendBlockchain(Vec<Block>),
    /// A transaction for the receiver to mine into a block at once.
    NewTransaction(Transaction),
    /// A transaction admitted elsewhere, for the pending pool.
    BroadcastTransaction(Transaction),
    /// A block mined elsewhere.
    BroadcastBlock(Block),
}

/// What a message is, as mathematics.
pub enum MessageModel {
    RequestBlockchain,
    SendBlockchain(Seq<BlockModel>),
    NewTransaction(TransactionModel),
    BroadcastTransaction(TransactionModel),
    BroadcastBlock(BlockModel),
}

impl View for Message {
    type V = MessageModel;

    open spec fn view(&self) -> MessageModel {
        match self {
            Message::RequestBlockchain => MessageModel::RequestBlockchain,
            Message::SendBlockchain(blocks) => MessageModel::SendBlockchain(block_models(blocks@)),
            Message::NewTransaction(transaction) => MessageModel::NewTransaction(transaction@),
            Message::BroadcastTransaction(transaction) => MessageModel::BroadcastTransaction(
                transaction@,
            ),
            Message::BroadcastBlock(block) => MessageModel::BroadcastBlock(block@),
        }
    }
}

} // verus!
