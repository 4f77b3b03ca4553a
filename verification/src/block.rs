//! Blocks: their digest and the proof-of-work search.

use crate::digest::{hex_encode, hex_text, sha256, sha256_digest};
use crate::encoding::{
    decimal_text, push_decimal, push_signed_decimal, push_str, signed_decimal_text,
};
use crate::transaction::{
    clone_transactions, list_text, push_list_text, transaction_models, Transaction,
    TransactionModel,
};
use vstd::prelude::*;
use vstd::string::StrSliceExecFns;
use vstd::utf8::*;

verus! {

/// The number of leading `0` digits that a mined block's hash must have.
pub const DIFFICULTY: usize = 4;

/// An ordered list of transactions, linked to its predecessor by
/// `previous_hash` and sealed by `hash`.
#[derive(Debug)]
pub struct Block {
    pub index: u32,
    pub timestamp: i64,
    pub nonce: u32,
    pub previous_hash: String,
    pub hash: String,
    pub transactions: Vec<Transaction>,
}

/// What a block is, as mathematics.
pub struct BlockModel {
    pub index: u32,
    pub timestamp: i64,
    pub nonce: u32,
    pub previous_hash: Seq<char>,
    pub hash: Seq<char>,
    pub transactions: Seq<TransactionModel>,
}

impl View for Block {
    type V = BlockModel;

    open spec fn view(&self) -> BlockModel {
        BlockModel {
            index: self.index,
            timestamp: self.timestamp,
            nonce: self.nonce,
            previous_hash: self.previous_hash@,
            hash: self.hash@,
            transactions: transaction_models(self.transactions@),
        }
    }
}

/// The models of a list of blocks, in order.
pub open spec fn block_models(blocks: Seq<Block>) -> Seq<BlockModel> {
    Seq::new(blocks.len(), |i: int| blocks[i]@)
}

/// Whether `hash` starts with `difficulty` characters `0`.
pub open spec fn has_leading_zeros(hash: Seq<char>, difficulty: nat) -> bool {
    &&& difficulty <= hash.len()
    &&& forall|i: int| 0 <= i < difficulty ==> hash[i] == '0'
}

impl BlockModel {
    /// The bytes that are hashed: index, timestamp, previous hash and nonce
    /// one after the other, then the text of the transactions. The stored
    /// hash is no part of them.
    pub open spec fn preimage(self) -> Seq<u8> {
        decimal_text(self.index as nat) + signed_decimal_text(self.timestamp as int) + encode_utf8(
            self.previous_hash,
        ) + decimal_text(self.nonce as nat) + list_text(self.transactions)
    }

    /// The hash that the five other fields call for: the SHA-256 digest of
    /// the preimage in lower-case hexadecimal.
    pub open spec fn digest(self) -> Seq<char> {
        hex_text(sha256(self.preimage()))
    }

    /// Whether the stored hash is the digest of the other fields.
    pub open spec fn is_sealed(self) -> bool {
        self.hash == self.digest()
    }

    /// This block with its hash set to its digest.
    pub open spec fn sealed(self) -> BlockModel {
        BlockModel { hash: self.digest(), ..self }
    }

    /// This block with another nonce, the stored hash left as it is.
    pub open spec fn with_nonce(self, nonce: u32) -> BlockModel {
        BlockModel { nonce, ..self }
    }
}

/// What mining at `difficulty` makes of a block.
///
/// A block whose stored hash already has the zeros is left alone, and so
/// is one whose nonce cannot grow. Otherwise the nonce moves up, one at a
/// time, to the first value whose digest has the zeros, and the hash is
/// that digest; if no value up to `u32::MAX` has them, the search stops at
/// `u32::MAX` with the digest of that nonce.
pub open spec fn is_mining_result(before: BlockModel, after: BlockModel, difficulty: nat) -> bool {
    if has_leading_zeros(before.hash, difficulty) || before.nonce == u32::MAX {
        after == before
    } else {
        &&& before.nonce < after.nonce
        &&& after == before.with_nonce(after.nonce).sealed()
        &&& forall|n: u32|
            before.nonce < n < after.nonce ==> !has_leading_zeros(
                #[trigger] before.with_nonce(n).digest(),
                difficulty,
            )
        &&& has_leading_zeros(after.hash, difficulty) || after.nonce == u32::MAX
    }
}

/// A sealed block stays sealed under mining, and unless the nonces ran out
/// its hash then starts with `difficulty` zeros.
pub proof fn lemma_mined_block_is_sealed(before: BlockModel, after: BlockModel, difficulty: nat)
    requires
        before.is_sealed(),
        is_mining_result(before, after, difficulty),
    ensures
        after.is_sealed(),
        after.nonce < u32::MAX ==> has_leading_zeros(after.hash, difficulty),
{
}

/// Mining is a function: the same block at the same difficulty has one
/// result.
pub proof fn lemma_mining_is_deterministic(
    before: BlockModel,
    first: BlockModel,
    second: BlockModel,
    difficulty: nat,
)
    requires
        is_mining_result(before, first, difficulty),
        is_mining_result(before, second, difficulty),
    ensures
        first == second,
{
    if !(has_leading_zeros(before.hash, difficulty) || before.nonce == u32::MAX) {
        if first.nonce < second.nonce {
            assert(!has_leading_zeros(before.with_nonce(first.nonce).digest(), difficulty));
        } else if second.nonce < first.nonce {
            assert(!has_leading_zeros(before.with_nonce(second.nonce).digest(), difficulty));
        }
    }
}

/// Whether `hash` starts with `difficulty` characters `0`.
pub fn starts_with_zeros(hash: &str, difficulty: usize) -> (ok: bool)
    ensures
        ok == has_leading_zeros(hash@, difficulty as nat),
{
    if hash.unicode_len() < difficulty {
        return false;
    }
    let mut i: usize = 0;
    while i < difficulty
        invariant
            i <= difficulty <= hash@.len(),
            forall|j: int| 0 <= j < i ==> hash@[j] == '0',
        decreases difficulty - i,
    {
        if hash.get_char(i) != '0' {
            return false;
        }
        i += 1;
    }
    true
}

impl Clone for Block {
    fn clone(&self) -> (res: Self)
        ensures
            res@ == self@,
    {
        Block {
            index: self.index,
            timestamp: self.timestamp,
            nonce: self.nonce,
            previous_hash: self.previous_hash.clone(),
            hash: self.hash.clone(),
            transactions: clone_transactions(&self.transactions),
        }
    }
}

/// Copies a list of blocks.
pub fn clone_blocks(blocks: &Vec<Block>) -> (copy: Vec<Block>)
    ensures
        block_models(copy@) == block_models(blocks@),
{
    let mut copy: Vec<Block> = Vec::new();
    let mut i: usize = 0;
    while i < blocks.len()
        invariant
            i <= blocks@.len(),
            copy@.len() == i,
            forall|j: int| 0 <= j < i ==> copy@[j]@ == blocks@[j]@,
        decreases blocks@.len() - i,
    {
        copy.push(blocks[i].clone());
        i += 1;
    }
    assert(block_models(copy@) =~= block_models(blocks@));
    copy
}

impl Block {
    /// Builds a block from its five fields and seals it with their digest.
    pub fn new(
        index: u32,
        timestamp: i64,
        nonce: u32,
        previous_hash: String,
        transactions: Vec<Transaction>,
    ) -> (block: Self)
        ensures
            block@ == (BlockModel {
                index,
                timestamp,
                nonce,
                previous_hash: previous_hash@,
                hash: Seq::empty(),
                transactions: transaction_models(transactions@),
            }).sealed(),
    {
        let mut block = Block {
            index,
            timestamp,
            nonce,
            previous_hash,
            hash: String::new(),
            transactions,
        };
        block.hash = block.calculate_hash();
        block
    }

    /// Searches for a nonce whose digest starts with [`DIFFICULTY`] zeros.
    pub fn mine_block(&mut self)
        ensures
            is_mining_result(old(self)@, final(self)@, DIFFICULTY as nat),
    {
        self.mine(DIFFICULTY);
    }

    /// Searches for a nonce whose digest starts with `difficulty` zeros.
    ///
    /// The search ends at `u32::MAX` at the latest: the nonce never wraps
    /// round, and a block that comes back with that nonce may lack the
    /// zeros.
    pub fn mine(&mut self, difficulty: usize)
        ensures
            is_mining_result(old(self)@, final(self)@, difficulty as nat),
    {
        let ghost before = self@;
        while !starts_with_zeros(self.hash.as_str(), difficulty) && self.nonce < u32::MAX
            invariant
                before.nonce <= self.nonce,
                self.nonce == before.nonce ==> self@ == before,
                self.nonce > before.nonce ==> {
                    &&& !has_leading_zeros(before.hash, difficulty as nat)
                    &&& self@ == before.with_nonce(self.nonce).sealed()
                },
                forall|n: u32|
                    before.nonce < n < self.nonce ==> !has_leading_zeros(
                        #[trigger] before.with_nonce(n).digest(),
                        difficulty as nat,
                    ),
            decreases u32::MAX - self.nonce,
        {
            self.nonce = self.nonce + 1;
            self.hash = self.calculate_hash();
        }
    }

    /// Computes the digest of this block's fields other than `hash`: 64
    /// lower-case hexadecimal digits.
    pub fn calculate_hash(&self) -> (hash: String)
        ensures
            hash@ == self@.digest(),
            hash@.len() == 64,
    {
        let mut data: Vec<u8> = Vec::new();
        push_decimal(&mut data, self.index as u64);
        push_signed_decimal(&mut data, self.timestamp);
        push_str(&mut data, self.previous_hash.as_str());
        push_decimal(&mut data, self.nonce as u64);
        push_list_text(&self.transactions, &mut data);
        let digest = sha256_digest(data.as_slice());
        hex_encode(digest.as_slice())
    }
}

} // verus!
