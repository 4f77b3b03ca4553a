//! What the chain says of one address: every amount that left it or
//! reached it, in the order of the chain.
//!
//! A balance is the sum of these entries, debits taken as negative. The
//! amounts are binary64 numbers, so the sum is floating-point work and is
//! left to the caller; which amounts enter it, with which sign and in which
//! order, is settled here.

use crate::block::{Block, BlockModel};
use crate::blockchain::Blockchain;
use crate::transaction::{transaction_models, Transaction, TransactionModel};
use vstd::prelude::*;

verus! {

/// One amount that an address paid or was paid.
#[derive(Clone, Copy, Debug, PartialEq, Eq, Structural)]
pub struct LedgerEntry {
    /// `true` where the address received the amount, `false` where it
    /// sent it.
    pub credit: bool,
    /// The amount, as its IEEE 754 binary64 bit pattern.
    pub amount: u64,
}

impl TransactionModel {
    /// The entries of one transaction for `address`: a debit if it is the
    /// sender, then a credit if it is the receiver.
    pub open spec fn entries(self, address: Seq<char>) -> Seq<LedgerEntry> {
        let debit = if self.sender == address {
            seq![LedgerEntry { credit: false, amount: self.amount }]
        } else {
            Seq::empty()
        };
        let credit = if self.receiver == address {
            seq![LedgerEntry { credit: true, amount: self.amount }]
        } else {
            Seq::empty()
        };
        debit + credit
    }

    /// Whether `address` is the sender or the receiver.
    pub open spec fn names(self, address: Seq<char>) -> bool {
        self.sender == address || self.receiver == address
    }
}

/// The entries of a list of transactions for `address`, in order.
pub open spec fn list_entries(transactions: Seq<TransactionModel>, address: Seq<char>) -> Seq<
    LedgerEntry,
>
    decreases transactions.len(),
{
    if transactions.len() == 0 {
        Seq::empty()
    } else {
        list_entries(transactions.drop_last(), address) + transactions.last().entries(address)
    }
}

/// The entries of a chain for `address`: those of each block in order.
pub open spec fn chain_entries(chain: Seq<BlockModel>, address: Seq<char>) -> Seq<LedgerEntry>
    decreases chain.len(),
{
    if chain.len() == 0 {
        Seq::empty()
    } else {
        chain_entries(chain.drop_last(), address) + list_entries(
            chain.last().transactions,
            address,
        )
    }
}

/// A list of transactions none of which names `address` has no entry
/// for it.
pub proof fn lemma_unnamed_in_list_has_no_entries(
    transactions: Seq<TransactionModel>,
    address: Seq<char>,
)
    requires
        forall|j: int| 0 <= j < transactions.len() ==> !(#[trigger] transactions[j]).names(address),
    ensures
        list_entries(transactions, address) == Seq::<LedgerEntry>::empty(),
    decreases transactions.len(),
{
    if transactions.len() > 0 {
        let rest = transactions.drop_last();
        assert forall|j: int| 0 <= j < rest.len() implies !(#[trigger] rest[j]).names(address) by {
            assert(rest[j] == transactions[j]);
        }
        lemma_unnamed_in_list_has_no_entries(rest, address);
        assert(!transactions[transactions.len() - 1].names(address));
    }
}

/// An address that no transaction of the chain names has no entry, so
/// that its balance is an empty sum.
pub proof fn lemma_unnamed_address_has_no_entries(chain: Seq<BlockModel>, address: Seq<char>)
    requires
        forall|i: int, j: int|
            0 <= i < chain.len() && 0 <= j < chain[i].transactions.len() ==> !(
            #[trigger] chain[i].transactions[j]).names(address),
    ensures
        chain_entries(chain, address) == Seq::<LedgerEntry>::empty(),
    decreases chain.len(),
{
    if chain.len() > 0 {
        let rest = chain.drop_last();
        assert forall|i: int, j: int|
            0 <= i < rest.len() && 0 <= j < rest[i].transactions.len() implies !(
        #[trigger] rest[i].transactions[j]).names(address) by {
            assert(rest[i] == chain[i]);
        }
        lemma_unnamed_address_has_no_entries(rest, address);
        let last = chain[chain.len() - 1];
        assert forall|j: int| 0 <= j < last.transactions.len() implies !(
        #[trigger] last.transactions[j]).names(address) by {
            assert(last.transactions[j] == chain[chain.len() - 1].transactions[j]);
        }
        lemma_unnamed_in_list_has_no_entries(last.transactions, address);
    }
}

/// Appends the entries of one block's transactions for `owner` to `out`.
fn push_list_entries(transactions: &Vec<Transaction>, owner: &String, out: &mut Vec<LedgerEntry>)
    ensures
        final(out)@ == old(out)@ + list_entries(transaction_models(transactions@), owner@),
{
    let ghost models = transaction_models(transactions@);
    let mut j: usize = 0;
    while j < transactions.len()
        invariant
            j <= transactions@.len(),
            models == transaction_models(transactions@),
            out@ == old(out)@ + list_entries(models.take(j as int), owner@),
        decreases transactions@.len() - j,
    {
        let trans = &transactions[j];
        proof {
            let next = models.take(j + 1);
            assert(next.drop_last() == models.take(j as int));
            assert(next.last() == trans@);
        }
        if trans.sender == *owner {
            out.push(LedgerEntry { credit: false, amount: trans.amount });
        }
        if trans.receiver == *owner {
            out.push(LedgerEntry { credit: true, amount: trans.amount });
        }
        j += 1;
    }
    assert(models.take(j as int) == models);
}

impl Blockchain {
    /// Every amount that `address` sent or received, in the order of the
    /// chain: the terms of its balance.
    pub fn balance_entries(&self, address: &str) -> (entries: Vec<LedgerEntry>)
        ensures
            entries@ == chain_entries(self@.chain, address@),
    {
        let owner: String = address.to_owned();
        let mut entries: Vec<LedgerEntry> = Vec::new();
        let mut i: usize = 0;
        while i < self.chain.len()
            invariant
                i <= self.chain@.len(),
                owner@ == address@,
                entries@ == chain_entries(self@.chain.take(i as int), address@),
            decreases self.chain@.len() - i,
        {
            let block: &Block = &self.chain[i];
            proof {
                let next = self@.chain.take(i + 1);
                assert(next.drop_last() == self@.chain.take(i as int));
                assert(next.last() == block@);
            }
            push_list_entries(&block.transactions, &owner, &mut entries);
            i += 1;
        }
        assert(self@.chain.take(i as int) == self@.chain);
        entries
    }
}

} // verus!
