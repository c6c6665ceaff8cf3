//! The ledger data model: accounts and transactions as a computation sees
//! them, the postings derived from transactions, and the running balances.
//!
//! Amounts are signed integers in minor currency units (for instance cents),
//! so every balance is exact.

use vstd::prelude::*;

verus! {

/// An opening-balance record: an account is identified by its name
/// (compared case-insensitively) together with its free-form type tag.
pub struct Account {
    pub account: String,
    pub account_type: String,
    pub amount: i64,
}

/// One leg of a split transaction. A leg without a type tag inherits the
/// parent transaction's type.
pub struct TransactionList {
    pub account: String,
    pub account_type: Option<String>,
    pub amount: i64,
}

/// A ledger transaction. A simple transaction moves `amount` between
/// `account` and `offset_account`; a split transaction also carries legs in
/// `transaction`, and its own `amount` is the stated total the legs are
/// reconciled against.
pub struct Transaction {
    pub date: String,
    pub description: String,
    pub account: String,
    pub account_type: String,
    pub offset_account: String,
    pub amount: i64,
    pub transaction: Option<Vec<TransactionList>>,
}

/// The in-memory snapshot one balance computation works on.
pub struct LedgerFile {
    pub accounts: Vec<Account>,
    pub transactions: Vec<Transaction>,
}

/// An elementary signed movement derived from a transaction: `amount` is
/// added to accounts matching `account` (name case-insensitively, type
/// exactly) and subtracted from accounts matching `offset_account` (name
/// only).
pub struct Posting {
    pub account: String,
    pub account_type: String,
    pub offset_account: String,
    pub amount: i64,
}

/// A running balance: seeded from an `Account`'s opening amount and mutated
/// as postings are folded in.
pub struct BalanceEntry {
    pub account: String,
    pub account_type: String,
    pub amount: i64,
}

/// Mathematical image of an `Account`.
pub ghost struct AccountV {
    pub account: Seq<char>,
    pub account_type: Seq<char>,
    pub amount: int,
}

/// Mathematical image of a `TransactionList` leg.
pub ghost struct TransactionListV {
    pub account: Seq<char>,
    pub account_type: Option<Seq<char>>,
    pub amount: int,
}

/// Mathematical image of a `Transaction`.
pub ghost struct TransactionV {
    pub date: Seq<char>,
    pub description: Seq<char>,
    pub account: Seq<char>,
    pub account_type: Seq<char>,
    pub offset_account: Seq<char>,
    pub amount: int,
    pub transaction: Option<Seq<TransactionListV>>,
}

/// Mathematical image of a `LedgerFile`.
pub ghost struct LedgerFileV {
    pub accounts: Seq<AccountV>,
    pub transactions: Seq<TransactionV>,
}

/// Mathematical image of a `Posting`.
pub ghost struct PostingV {
    pub account: Seq<char>,
    pub account_type: Seq<char>,
    pub offset_account: Seq<char>,
    pub amount: int,
}

/// Mathematical image of a `BalanceEntry`.
pub ghost struct BalanceEntryV {
    pub account: Seq<char>,
    pub account_type: Seq<char>,
    pub amount: int,
}

impl View for Account {
    type V = AccountV;

    open spec fn view(&self) -> AccountV {
        AccountV {
            account: self.account@,
            account_type: self.account_type@,
            amount: self.amount as int,
        }
    }
}

impl View for TransactionList {
    type V = TransactionListV;

    open spec fn view(&self) -> TransactionListV {
        TransactionListV {
            account: self.account@,
            account_type: match self.account_type {
                Some(t) => Some(t@),
                None => None,
            },
            amount: self.amount as int,
        }
    }
}

impl View for Transaction {
    type V = TransactionV;

    open spec fn view(&self) -> TransactionV {
        TransactionV {
            date: self.date@,
            description: self.description@,
            account: self.account@,
            account_type: self.account_type@,
            offset_account: self.offset_account@,
            amount: self.amount as int,
            transaction: match self.transaction {
                Some(legs) => Some(legs@.map_values(|l: TransactionList| l@)),
                None => None,
            },
        }
    }
}

impl View for LedgerFile {
    type V = LedgerFileV;

    open spec fn view(&self) -> LedgerFileV {
        LedgerFileV {
            accounts: self.accounts@.map_values(|a: Account| a@),
            transactions: self.transactions@.map_values(|t: Transaction| t@),
        }
    }
}

impl View for Posting {
    type V = PostingV;

    open spec fn view(&self) -> PostingV {
        PostingV {
            account: self.account@,
            account_type: self.account_type@,
            offset_account: self.offset_account@,
            amount: self.amount as int,
        }
    }
}

impl View for BalanceEntry {
    type V = BalanceEntryV;

    open spec fn view(&self) -> BalanceEntryV {
        BalanceEntryV {
            account: self.account@,
            account_type: self.account_type@,
            amount: self.amount as int,
        }
    }
}

/// The images of a sequence of accounts.
pub open spec fn account_views(s: Seq<Account>) -> Seq<AccountV> {
    s.map_values(|a: Account| a@)
}

/// The images of a sequence of transactions.
pub open spec fn transaction_views(s: Seq<Transaction>) -> Seq<TransactionV> {
    s.map_values(|t: Transaction| t@)
}

/// The images of a sequence of postings.
pub open spec fn posting_views(s: Seq<Posting>) -> Seq<PostingV> {
    s.map_values(|p: Posting| p@)
}

/// The images of a sequence of balance entries.
pub open spec fn entry_views(s: Seq<BalanceEntry>) -> Seq<BalanceEntryV> {
    s.map_values(|e: BalanceEntry| e@)
}

} // verus!
