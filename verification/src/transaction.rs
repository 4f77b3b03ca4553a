//! Transactions, their admission rule and their text.

use crate::encoding::{decimal_text, push_decimal, push_quoted, push_str, quoted_text};
use vstd::prelude::*;
use vstd::utf8::*;

verus! {

/// The largest bit pattern of a positive amount: positive infinity in the
/// IEEE 754 binary64 format. Every pattern above it is either a NaN or has
/// the sign bit set.
pub const MAX_POSITIVE_AMOUNT: u64 = 0x7FF0_0000_0000_0000;

/// A transfer of `amount` from `sender` to `receiver`.
///
/// The amount is a binary64 number held as its IEEE 754 bit pattern, so that
/// the value travels through the ledger without loss and every rule about it
/// is a rule about integers.
#[derive(Debug)]
pub struct Transaction {
    pub sender: String,
    pub receiver: String,
    pub amount: u64,
}

/// What a transaction is, as mathematics: two names and an amount.
pub struct TransactionModel {
    pub sender: Seq<char>,
    pub receiver: Seq<char>,
    pub amount: u64,
}

impl View for Transaction {
    type V = TransactionModel;

    open spec fn view(&self) -> TransactionModel {
        TransactionModel { sender: self.sender@, receiver: self.receiver@, amount: self.amount }
    }
}

/// The models of a list of transactions, in order.
pub open spec fn transaction_models(transactions: Seq<Transaction>) -> Seq<TransactionModel> {
    Seq::new(transactions.len(), |i: int| transactions[i]@)
}

/// Whether `bits` is the pattern of a number strictly greater than zero:
/// the sign bit is clear, the number is not zero and it is not a NaN.
pub open spec fn amount_is_positive(bits: u64) -> bool {
    0 < bits <= MAX_POSITIVE_AMOUNT
}

impl TransactionModel {
    /// The admission rule: a positive amount and two distinct, non-empty names.
    pub open spec fn is_valid(self) -> bool {
        &&& amount_is_positive(self.amount)
        &&& self.sender.len() > 0
        &&& self.receiver.len() > 0
        &&& self.sender != self.receiver
    }

    /// The text of one transaction: both names quoted, the amount as the
    /// decimal digits of its bit pattern.
    pub open spec fn text(self) -> Seq<u8> {
        encode_utf8("Transaction { sender: "@) + quoted_text(self.sender) + encode_utf8(
            ", receiver: "@,
        ) + quoted_text(self.receiver) + encode_utf8(", amount: "@) + decimal_text(
            self.amount as nat,
        ) + encode_utf8(" }"@)
    }
}

/// The texts of `transactions`, with `, ` between neighbours.
pub open spec fn joined_text(transactions: Seq<TransactionModel>) -> Seq<u8>
    decreases transactions.len(),
{
    if transactions.len() == 0 {
        Seq::empty()
    } else if transactions.len() == 1 {
        transactions[0].text()
    } else {
        joined_text(transactions.drop_last()) + encode_utf8(", "@) + transactions.last().text()
    }
}

/// The text of a list of transactions: the joined texts in square brackets.
pub open spec fn list_text(transactions: Seq<TransactionModel>) -> Seq<u8> {
    encode_utf8("["@) + joined_text(transactions) + encode_utf8("]"@)
}

impl Clone for Transaction {
    fn clone(&self) -> (res: Self)
        ensures
            res@ == self@,
    {
        Transaction {
            sender: self.sender.clone(),
            receiver: self.receiver.clone(),
            amount: self.amount,
        }
    }
}

impl Transaction {
    /// Applies the admission rule to this transaction.
    pub fn verify(&self) -> (ok: bool)
        ensures
            ok == self@.is_valid(),
    {
        if self.amount == 0 || self.amount > MAX_POSITIVE_AMOUNT {
            return false;
        }
        if self.sender.as_str().is_empty() || self.receiver.as_str().is_empty() || self.sender
            == self.receiver {
            return false;
        }
        true
    }

    /// Appends the text of this transaction to `out`.
    pub fn push_text(&self, out: &mut Vec<u8>)
        ensures
            final(out)@ == old(out)@ + self@.text(),
    {
        push_str(out, "Transaction { sender: ");
        push_quoted(out, self.sender.as_str());
        push_str(out, ", receiver: ");
        push_quoted(out, self.receiver.as_str());
        push_str(out, ", amount: ");
        push_decimal(out, self.amount);
        push_str(out, " }");
    }
}

/// Copies a list of transactions.
pub fn clone_transactions(transactions: &Vec<Transaction>) -> (copy: Vec<Transaction>)
    ensures
        transaction_models(copy@) == transaction_models(transactions@),
{
    let mut copy: Vec<Transaction> = Vec::new();
    let mut i: usize = 0;
    while i < transactions.len()
        invariant
            i <= transactions@.len(),
            copy@.len() == i,
            forall|j: int| 0 <= j < i ==> copy@[j]@ == transactions@[j]@,
        decreases transactions@.len() - i,
    {
        copy.push(transactions[i].clone());
        i += 1;
    }
    assert(transaction_models(copy@) =~= transaction_models(transactions@));
    copy
}

/// Appends the text of a list of transactions to `out`.
pub fn push_list_text(transactions: &Vec<Transaction>, out: &mut Vec<u8>)
    ensures
        final(out)@ == old(out)@ + list_text(transaction_models(transactions@)),
{
    let ghost models = transaction_models(transactions@);
    push_str(out, "[");
    let mut i: usize = 0;
    while i < transactions.len()
        invariant
            i <= transactions@.len(),
            models == transaction_models(transactions@),
            out@ == old(out)@ + encode_utf8("["@) + joined_text(models.take(i as int)),
        decreases transactions@.len() - i,
    {
        proof {
            let next = models.take(i + 1);
            assert(next.drop_last() == models.take(i as int));
            assert(next.last() == transactions@[i as int]@);
        }
        if i > 0 {
            push_str(out, ", ");
        }
        transactions[i].push_text(out);
        i += 1;
    }
    assert(models.take(i as int) == models);
    push_str(out, "]");
}

} // verus!
