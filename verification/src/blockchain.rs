//! The chain of blocks: growing it, checking it, replacing it.

use crate::block::{
    block_models, clone_blocks, has_leading_zeros, is_mining_result, starts_with_zeros, Block,
    BlockModel, DIFFICULTY,
};
use crate::clock::current_timestamp;
use crate::transaction::{clone_transactions, transaction_models, Transaction, TransactionModel};
use vstd::prelude::*;

verus! {

/// The blocks of one node, the transactions that wait for a block, and
/// the peers to tell about news.
#[derive(Debug)]
pub struct Blockchain {
    pub chain: Vec<Block>,
    pub peers: Vec<String>,
    pub pending_transactions: Vec<Transaction>,
    pub difficulty: usize,
}

/// What a node's chain is, as mathematics.
pub struct BlockchainModel {
    pub chain: Seq<BlockModel>,
    pub peers: Seq<Seq<char>>,
    pub pending_transactions: Seq<TransactionModel>,
    pub difficulty: nat,
}

/// The characters of each of a list of strings, in order.
pub open spec fn text_models(texts: Seq<String>) -> Seq<Seq<char>> {
    Seq::new(texts.len(), |i: int| texts[i]@)
}

impl View for Blockchain {
    type V = BlockchainModel;

    open spec fn view(&self) -> BlockchainModel {
        BlockchainModel {
            chain: block_models(self.chain@),
            peers: text_models(self.peers@),
            pending_transactions: transaction_models(self.pending_transactions@),
            difficulty: self.difficulty as nat,
        }
    }
}

/// The first block of every chain.
pub open spec fn genesis_block() -> BlockModel {
    (BlockModel {
        index: 0,
        timestamp: 0,
        nonce: 0,
        previous_hash: "0"@,
        hash: Seq::empty(),
        transactions: Seq::empty(),
    }).sealed()
}

/// The chain of a node that has just started.
pub open spec fn genesis_chain() -> BlockchainModel {
    BlockchainModel {
        chain: seq![genesis_block()],
        peers: Seq::empty(),
        pending_transactions: Seq::empty(),
        difficulty: DIFFICULTY as nat,
    }
}

/// Whether every transaction of the list passes the admission rule.
pub open spec fn all_valid(transactions: Seq<TransactionModel>) -> bool {
    forall|i: int| 0 <= i < transactions.len() ==> (#[trigger] transactions[i]).is_valid()
}

/// Whether block `i` is sealed and names the hash of block `i - 1`.
pub open spec fn is_link(chain: Seq<BlockModel>, i: int) -> bool {
    &&& chain[i].is_sealed()
    &&& chain[i].previous_hash == chain[i - 1].hash
}

/// Whether every block after the first is sealed and linked to the one
/// before it. Neither the transactions nor the leading zeros are looked at.
pub open spec fn is_linked(chain: Seq<BlockModel>) -> bool {
    forall|i: int| 1 <= i < chain.len() ==> #[trigger] is_link(chain, i)
}

/// Whether block `i` has the leading zeros that mining asks for and the
/// index one above that of block `i - 1`.
pub open spec fn is_mined_link(chain: Seq<BlockModel>, i: int) -> bool {
    &&& has_leading_zeros(chain[i].hash, DIFFICULTY as nat)
    &&& chain[i].index == chain[i - 1].index + 1
}

/// Whether every block after the first was mined onto the one before it.
pub open spec fn is_mined(chain: Seq<BlockModel>) -> bool {
    forall|i: int| 1 <= i < chain.len() ==> #[trigger] is_mined_link(chain, i)
}

/// Whether `block` is what mining makes of the block that follows `chain`
/// with the given transactions and timestamp: index one above the last
/// block's, the last block's hash as previous hash, the search started at
/// nonce zero.
pub open spec fn is_next_block(
    chain: Seq<BlockModel>,
    transactions: Seq<TransactionModel>,
    timestamp: i64,
    block: BlockModel,
) -> bool {
    is_mining_result(
        (BlockModel {
            index: (chain.last().index + 1) as u32,
            timestamp,
            nonce: 0,
            previous_hash: chain.last().hash,
            hash: Seq::empty(),
            transactions,
        }).sealed(),
        block,
        DIFFICULTY as nat,
    )
}

/// The message of the error for a list with an invalid transaction.
pub open spec fn invalid_transactions_text() -> Seq<char> {
    "Invalid transactions"@
}

/// The message of the error for a block without the leading zeros.
pub open spec fn difficulty_not_met_text() -> Seq<char> {
    "Block did not meet difficulty requirement"@
}

/// The message that an outcome carries, if it is an error.
pub open spec fn error_text(outcome: Result<(), &'static str>) -> Option<Seq<char>> {
    match outcome {
        Ok(_) => None,
        Err(message) => Some(message@),
    }
}

/// What adding a block at `timestamp` does to a chain that can grow.
///
/// One invalid transaction fails the whole list and leaves the chain as it
/// was. Otherwise the next block is mined; it is appended if its hash has
/// the zeros, and else the chain is left as it was.
pub open spec fn is_add_block_outcome(
    before: BlockchainModel,
    transactions: Seq<TransactionModel>,
    timestamp: i64,
    after: BlockchainModel,
    outcome: Option<Seq<char>>,
) -> bool {
    if !all_valid(transactions) {
        &&& after == before
        &&& outcome == Some(invalid_transactions_text())
    } else {
        exists|block: BlockModel|
            {
                &&& #[trigger] is_next_block(before.chain, transactions, timestamp, block)
                &&& if has_leading_zeros(block.hash, DIFFICULTY as nat) {
                    &&& after == BlockchainModel { chain: before.chain.push(block), ..before }
                    &&& outcome is None
                } else {
                    &&& after == before
                    &&& outcome == Some(difficulty_not_met_text())
                }
            }
    }
}

impl BlockchainModel {
    /// Whether a block can be added: there is a last block, and its index
    /// is not the largest there is.
    pub open spec fn can_grow(self) -> bool {
        &&& self.chain.len() > 0
        &&& self.chain.last().index < u32::MAX
    }

    /// This chain with its blocks replaced by `candidate`, if those are
    /// linked and strictly more than the blocks held; else this chain.
    pub open spec fn replaced_if_longer(self, candidate: Seq<BlockModel>) -> BlockchainModel {
        if is_linked(candidate) && candidate.len() > self.chain.len() {
            BlockchainModel { chain: candidate, ..self }
        } else {
            self
        }
    }
}

/// Copies a list of strings.
pub fn clone_texts(texts: &Vec<String>) -> (copy: Vec<String>)
    ensures
        text_models(copy@) == text_models(texts@),
{
    let mut copy: Vec<String> = Vec::new();
    let mut i: usize = 0;
    while i < texts.len()
        invariant
            i <= texts@.len(),
            copy@.len() == i,
            forall|j: int| 0 <= j < i ==> copy@[j]@ == texts@[j]@,
        decreases texts@.len() - i,
    {
        copy.push(texts[i].clone());
        i += 1;
    }
    assert(text_models(copy@) =~= text_models(texts@));
    copy
}

/// The chain of a node that has just started is linked.
pub proof fn lemma_genesis_chain_is_linked()
    ensures
        is_linked(genesis_chain().chain),
{
}

/// Adding a block, whether it succeeds or fails, leaves a linked chain
/// linked and a mined chain mined, and never takes a block away.
pub proof fn lemma_add_block_keeps_links(
    before: BlockchainModel,
    transactions: Seq<TransactionModel>,
    timestamp: i64,
    after: BlockchainModel,
    outcome: Option<Seq<char>>,
)
    requires
        before.chain.len() > 0,
        is_linked(before.chain),
        is_add_block_outcome(before, transactions, timestamp, after, outcome),
    ensures
        is_linked(after.chain),
        is_mined(before.chain) && before.can_grow() ==> is_mined(after.chain),
        after.chain.len() >= before.chain.len(),
        outcome is None ==> after.chain.len() == before.chain.len() + 1,
{
    if all_valid(transactions) {
        let block = choose|block: BlockModel|
            {
                &&& #[trigger] is_next_block(before.chain, transactions, timestamp, block)
                &&& if has_leading_zeros(block.hash, DIFFICULTY as nat) {
                    &&& after == BlockchainModel { chain: before.chain.push(block), ..before }
                    &&& outcome is None
                } else {
                    &&& after == before
                    &&& outcome == Some(difficulty_not_met_text())
                }
            };
        if has_leading_zeros(block.hash, DIFFICULTY as nat) {
            assert forall|i: int| 1 <= i < after.chain.len() implies #[trigger] is_link(
                after.chain,
                i,
            ) by {
                if i < before.chain.len() {
                    assert(is_link(before.chain, i));
                }
            }
            if is_mined(before.chain) && before.can_grow() {
                assert forall|i: int| 1 <= i < after.chain.len() implies #[trigger] is_mined_link(
                    after.chain,
                    i,
                ) by {
                    if i < before.chain.len() {
                        assert(is_mined_link(before.chain, i));
                    }
                }
            }
        }
    }
}

/// Whether step `k` of a history is a successful `add_block`: chain `k + 1`
/// is chain `k` with a block of `transactions[k]` mined at `timestamps[k]`.
pub open spec fn is_successful_step(
    history: Seq<BlockchainModel>,
    transactions: Seq<Seq<TransactionModel>>,
    timestamps: Seq<i64>,
    k: int,
) -> bool {
    is_add_block_outcome(history[k], transactions[k], timestamps[k], history[k + 1], None)
}

/// Every chain that comes from a fresh one by successful additions of
/// blocks, however many and with whatever transactions and timestamps, is
/// linked. As long as the indices have not run out, it is mined as well,
/// and each block's index is its place in the chain.
pub proof fn lemma_grown_chain_is_linked(
    history: Seq<BlockchainModel>,
    transactions: Seq<Seq<TransactionModel>>,
    timestamps: Seq<i64>,
)
    requires
        history.len() == transactions.len() + 1,
        history.len() == timestamps.len() + 1,
        history[0] == genesis_chain(),
        forall|k: int|
            0 <= k < transactions.len() ==> #[trigger] is_successful_step(
                history,
                transactions,
                timestamps,
                k,
            ),
    ensures
        is_linked(history.last().chain),
        history.last().chain.len() == history.len(),
        history.len() <= u32::MAX ==> {
            &&& is_mined(history.last().chain)
            &&& history.last().chain.last().index == history.len() - 1
        },
    decreases history.len(),
{
    if history.len() > 1 {
        let shorter = history.drop_last();
        let last = history.len() - 2;
        assert forall|k: int| 0 <= k < transactions.drop_last().len() implies #[trigger] is_successful_step(
            shorter,
            transactions.drop_last(),
            timestamps.drop_last(),
            k,
        ) by {
            assert(is_successful_step(history, transactions, timestamps, k));
        }
        lemma_grown_chain_is_linked(shorter, transactions.drop_last(), timestamps.drop_last());
        assert(is_successful_step(history, transactions, timestamps, last));
        lemma_add_block_keeps_links(
            history[last],
            transactions[last],
            timestamps[last],
            history[last + 1],
            None,
        );
    }
}

/// In a linked chain of two blocks or more, putting another hash into any
/// one block breaks a link.
pub proof fn lemma_changed_hash_breaks_links(chain: Seq<BlockModel>, i: int, hash: Seq<char>)
    requires
        is_linked(chain),
        chain.len() >= 2,
        0 <= i < chain.len(),
        hash != chain[i].hash,
    ensures
        !is_linked(chain.update(i, BlockModel { hash, ..chain[i] })),
{
    let changed = chain.update(i, BlockModel { hash, ..chain[i] });
    if i >= 1 {
        assert(is_link(chain, i));
        assert(!is_link(changed, i));
    } else {
        assert(is_link(chain, 1));
        assert(!is_link(changed, 1));
    }
}

/// Replacement never shortens a chain, keeps a linked chain linked, and
/// changes nothing unless the candidate is linked and strictly longer.
pub proof fn lemma_replacement_is_safe(before: BlockchainModel, candidate: Seq<BlockModel>)
    ensures
        before.replaced_if_longer(candidate).chain.len() >= before.chain.len(),
        is_linked(before.chain) ==> is_linked(before.replaced_if_longer(candidate).chain),
        candidate.len() <= before.chain.len() || !is_linked(candidate)
            ==> before.replaced_if_longer(candidate) == before,
{
}

impl Clone for Blockchain {
    fn clone(&self) -> (res: Self)
        ensures
            res@ == self@,
    {
        Blockchain {
            chain: clone_blocks(&self.chain),
            peers: clone_texts(&self.peers),
            pending_transactions: clone_transactions(&self.pending_transactions),
            difficulty: self.difficulty,
        }
    }
}

impl Blockchain {
    /// A chain that holds the genesis block and nothing else.
    pub fn new() -> (fresh: Self)
        ensures
            fresh@ == genesis_chain(),
    {
        let mut chain: Vec<Block> = Vec::new();
        let genesis_block = Blockchain::create_genesis_block();
        chain.push(genesis_block);
        let fresh = Blockchain {
            chain,
            peers: Vec::new(),
            pending_transactions: Vec::new(),
            difficulty: DIFFICULTY,
        };
        assert(fresh@.chain =~= genesis_chain().chain);
        assert(fresh@.peers =~= genesis_chain().peers);
        assert(fresh@.pending_transactions =~= genesis_chain().pending_transactions);
        fresh
    }

    fn create_genesis_block() -> (block: Block)
        ensures
            block@ == genesis_block(),
    {
        let block = Block::new(0, 0, 0, "0".to_owned(), Vec::new());
        assert(block@.transactions =~= Seq::empty());
        block
    }

    /// Whether every transaction of the list passes the admission rule.
    pub fn validate_transactions(&self, transactions: &[Transaction]) -> (ok: bool)
        ensures
            ok == all_valid(transaction_models(transactions@)),
    {
        let mut i: usize = 0;
        while i < transactions.len()
            invariant
                i <= transactions@.len(),
                forall|j: int| 0 <= j < i ==> (#[trigger] transaction_models(transactions@)[j]).is_valid(),
            decreases transactions@.len() - i,
        {
            if !self.validate_transaction(&transactions[i]) {
                assert(!transaction_models(transactions@)[i as int].is_valid());
                return false;
            }
            i += 1;
        }
        true
    }

    /// Whether one transaction passes the admission rule.
    pub fn validate_transaction(&self, transaction: &Transaction) -> (ok: bool)
        ensures
            ok == transaction@.is_valid(),
    {
        transaction.verify()
    }

    /// Whether the block's stored hash has the leading zeros that mining
    /// asks for.
    pub fn is_valid_proof(&self, block: &Block) -> (ok: bool)
        ensures
            ok == has_leading_zeros(block@.hash, DIFFICULTY as nat),
    {
        let num_zeros = self.get_difficulty();
        starts_with_zeros(block.hash.as_str(), num_zeros)
    }

    /// The mining difficulty, which is fixed.
    pub fn get_difficulty(&self) -> (difficulty: usize)
        ensures
            difficulty == DIFFICULTY,
    {
        DIFFICULTY
    }

    /// Puts a transaction into the pending pool, unchecked.
    pub fn add_transaction(&mut self, transaction: Transaction)
        ensures
            final(self)@ == (BlockchainModel {
                pending_transactions: old(self)@.pending_transactions.push(transaction@),
                ..old(self)@
            }),
    {
        self.pending_transactions.push(transaction);
        assert(self@.pending_transactions =~= old(self)@.pending_transactions.push(transaction@));
    }

    /// Mines a block with the given transactions, stamped with the current
    /// time, and appends it.
    pub fn add_block(&mut self, transactions: Vec<Transaction>) -> (outcome: Result<
        (),
        &'static str,
    >)
        requires
            old(self)@.can_grow(),
        ensures
            exists|timestamp: i64|
                is_add_block_outcome(
                    old(self)@,
                    transaction_models(transactions@),
                    timestamp,
                    final(self)@,
                    error_text(outcome),
                ),
    {
        let timestamp = current_timestamp();
        self.add_block_at(transactions, timestamp)
    }

    /// Mines a block with the given transactions and timestamp, and
    /// appends it.
    pub fn add_block_at(&mut self, transactions: Vec<Transaction>, timestamp: i64) -> (outcome:
        Result<(), &'static str>)
        requires
            old(self)@.can_grow(),
        ensures
            is_add_block_outcome(
                old(self)@,
                transaction_models(transactions@),
                timestamp,
                final(self)@,
                error_text(outcome),
            ),
    {
        if !self.validate_transactions(transactions.as_slice()) {
            return Err("Invalid transactions");
        }
        let previous_block = &self.chain[self.chain.len() - 1];
        let index = previous_block.index + 1;
        let nonce: u32 = 0;
        let previous_hash = previous_block.hash.clone();
        let mut block = Block::new(index, timestamp, nonce, previous_hash, transactions);

        block.mine_block();
        assert(is_next_block(
            old(self)@.chain,
            transaction_models(transactions@),
            timestamp,
            block@,
        ));

        if !self.is_valid_proof(&block) {
            return Err("Block did not meet difficulty requirement");
        }
        self.chain.push(block);
        assert(self@.chain =~= old(self)@.chain.push(block@));
        Ok(())
    }

    /// Whether every block after the first is sealed and linked to the one
    /// before it.
    pub fn is_chain_valid(&self) -> (ok: bool)
        ensures
            ok == is_linked(self@.chain),
    {
        let mut i: usize = 1;
        while i < self.chain.len()
            invariant
                1 <= i,
                forall|j: int| 1 <= j < i && j < self.chain@.len() ==> #[trigger] is_link(self@.chain, j),
            decreases self.chain@.len() - i,
        {
            let current_block = &self.chain[i];
            let previous_block = &self.chain[i - 1];
            if !(current_block.hash == current_block.calculate_hash()) || !(
            current_block.previous_hash == previous_block.hash) {
                assert(!is_link(self@.chain, i as int));
                return false;
            }
            i += 1;
        }
        true
    }

    /// A chain with the given blocks and with this chain's peers, pending
    /// transactions and difficulty.
    pub fn from(&self, blocks: Vec<Block>) -> (other: Self)
        ensures
            other@ == (BlockchainModel { chain: block_models(blocks@), ..self@ }),
    {
        Blockchain {
            chain: blocks,
            difficulty: self.difficulty,
            peers: clone_texts(&self.peers),
            pending_transactions: clone_transactions(&self.pending_transactions),
        }
    }

    /// Takes the candidate's blocks in place of this chain's if they are
    /// linked and strictly more; says whether it did.
    pub fn replace_if_longer(&mut self, candidate_blocks: Vec<Block>) -> (replaced: bool)
        ensures
            final(self)@ == old(self)@.replaced_if_longer(block_models(candidate_blocks@)),
            replaced == (is_linked(block_models(candidate_blocks@)) && candidate_blocks@.len()
                > old(self)@.chain.len()),
    {
        let received = self.from(candidate_blocks);
        assert(received@.chain.len() == received.chain@.len());
        assert(block_models(candidate_blocks@).len() == candidate_blocks@.len());
        if received.is_chain_valid() && received.chain.len() > self.chain.len() {
            self.chain = received.chain;
            true
        } else {
            false
        }
    }
}

} // verus!
