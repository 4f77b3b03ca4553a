//! A minimal peer-to-peer ledger node: blocks, proof-of-work mining, chain
//! validation, fork resolution and the peer message protocol, with each rule
//! stated as a contract and proved.

pub mod balance;
pub mod block;
pub mod blockchain;
pub mod clock;
pub mod custom_error;
pub mod digest;
pub mod encoding;
pub mod messages;
pub mod networking;
pub mod peers;
pub mod transaction;
