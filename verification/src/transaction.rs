//! Ledger transactions and their sign-based classification.

use vstd::prelude::*;

verus! {

/// Classification of a transaction, derived purely from the signs of its two
/// amounts (see `spec_transaction_type`). It is never stored.
#[derive(Clone, Copy, Debug, PartialEq, Eq, Structural)]
pub enum TransactionType {
    Buy,
    Sell,
    Income,
    Expense,
    Invalid,
}

/// The classification table. A zero amount on either side makes the
/// transaction invalid; otherwise the sign pair decides. Note that no sign
/// pair reaches `Expense`: the negative/negative pair resolves to `Income`.
/// This mirrors a known gap in the classification rules rather than an
/// invented sign convention (see `lemma_expense_unreachable`).
pub open spec fn spec_transaction_type(base_amount: int, quote_amount: int) -> TransactionType {
    if base_amount == 0 || quote_amount == 0 {
        TransactionType::Invalid
    } else if base_amount > 0 && quote_amount > 0 {
        TransactionType::Income
    } else if base_amount > 0 {
        TransactionType::Buy
    } else if quote_amount > 0 {
        TransactionType::Sell
    } else {
        TransactionType::Income
    }
}

/// The `Expense` classification is unreachable: no pair of amounts maps to
/// it under the table above.
pub proof fn lemma_expense_unreachable(base_amount: int, quote_amount: int)
    ensures
        spec_transaction_type(base_amount, quote_amount) != TransactionType::Expense,
{
}

/// One ledger movement: `base_amount` units of the `base` asset move
/// together with `quote_amount` units of the `quote` asset. Amounts are
/// signed fixed-point integers (minor units at the caller's scale); the
/// timestamp is a plain integer instant (e.g. seconds since an epoch), of
/// which only the order matters. Immutable once constructed.
pub struct Transaction {
    base: String,
    quote: String,
    base_amount: i64,
    quote_amount: i64,
    timestamp: i64,
}

impl Clone for Transaction {
    fn clone(&self) -> (r: Self)
        ensures
            r == *self,
    {
        Transaction {
            base: self.base.clone(),
            quote: self.quote.clone(),
            base_amount: self.base_amount,
            quote_amount: self.quote_amount,
            timestamp: self.timestamp,
        }
    }
}

impl Transaction {
    pub closed spec fn spec_base(&self) -> Seq<char> {
        self.base@
    }

    pub closed spec fn spec_quote(&self) -> Seq<char> {
        self.quote@
    }

    pub closed spec fn spec_base_amount(&self) -> i64 {
        self.base_amount
    }

    pub closed spec fn spec_quote_amount(&self) -> i64 {
        self.quote_amount
    }

    pub closed spec fn spec_timestamp(&self) -> i64 {
        self.timestamp
    }

    /// The classification of this transaction.
    pub open spec fn spec_type(&self) -> TransactionType {
        spec_transaction_type(self.spec_base_amount() as int, self.spec_quote_amount() as int)
    }

    /// A transaction is invalid exactly when either amount is zero.
    pub open spec fn spec_is_invalid(&self) -> bool {
        self.spec_base_amount() == 0 || self.spec_quote_amount() == 0
    }

    /// Whether the timestamp lies in the half-open window `[start, end)`.
    pub open spec fn spec_in_period(&self, start: int, end: int) -> bool {
        start <= self.spec_timestamp() < end
    }

    pub fn new(base: String, quote: String, base_amount: i64, quote_amount: i64, timestamp: i64) -> (r: Transaction)
        ensures
            r.spec_base() == base@,
            r.spec_quote() == quote@,
            r.spec_base_amount() == base_amount,
            r.spec_quote_amount() == quote_amount,
            r.spec_timestamp() == timestamp,
    {
        Transaction { base, quote, base_amount, quote_amount, timestamp }
    }

    pub fn base(&self) -> (r: &String)
        ensures
            r@ == self.spec_base(),
    {
        &self.base
    }

    pub fn quote(&self) -> (r: &String)
        ensures
            r@ == self.spec_quote(),
    {
        &self.quote
    }

    pub fn base_amount(&self) -> (r: &i64)
        ensures
            *r == self.spec_base_amount(),
    {
        &self.base_amount
    }

    pub fn quote_amount(&self) -> (r: &i64)
        ensures
            *r == self.spec_quote_amount(),
    {
        &self.quote_amount
    }

    pub fn timestamp(&self) -> (r: &i64)
        ensures
            *r == self.spec_timestamp(),
    {
        &self.timestamp
    }

    pub fn get_transaction_type(&self) -> (r: TransactionType)
        ensures
            r == self.spec_type(),
    {
        if self.base_amount == 0 || self.quote_amount == 0 {
            return TransactionType::Invalid;
        }
        if self.base_amount > 0 {
            return if self.quote_amount > 0 {
                TransactionType::Income
            } else {
                TransactionType::Buy
            };
        }
        if self.quote_amount > 0 {
            TransactionType::Sell
        } else {
            TransactionType::Income
        }
    }

    pub fn is_buy(&self) -> (r: bool)
        ensures
            r == (self.spec_type() is Buy),
    {
        match self.get_transaction_type() {
            TransactionType::Buy => true,
            _ => false,
        }
    }

    pub fn is_sell(&self) -> (r: bool)
        ensures
            r == (self.spec_type() is Sell),
    {
        match self.get_transaction_type() {
            TransactionType::Sell => true,
            _ => false,
        }
    }

    pub fn is_income(&self) -> (r: bool)
        ensures
            r == (self.spec_type() is Income),
    {
        match self.get_transaction_type() {
            TransactionType::Income => true,
            _ => false,
        }
    }

    pub fn is_expense(&self) -> (r: bool)
        ensures
            r == (self.spec_type() is Expense),
            r == false,
    {
        proof {
            lemma_expense_unreachable(self.spec_base_amount() as int, self.spec_quote_amount() as int);
        }
        match self.get_transaction_type() {
            TransactionType::Expense => true,
            _ => false,
        }
    }

    /// A transaction with a zero base or quote amount is invalid, whatever
    /// the other amount is.
    pub fn is_invalid(&self) -> (r: bool)
        ensures
            r == self.spec_is_invalid(),
            r == (self.spec_type() is Invalid),
    {
        match self.get_transaction_type() {
            TransactionType::Invalid => true,
            _ => false,
        }
    }

    /// Whether the timestamp lies in `[start, end)`: the start instant is
    /// included, the end instant excluded.
    pub fn in_period(&self, start: i64, end: i64) -> (r: bool)
        ensures
            r == self.spec_in_period(start as int, end as int),
    {
        self.timestamp >= start && self.timestamp < end
    }
}

} // verus!
