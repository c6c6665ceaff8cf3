//! A small double-entry ledger checker: transactions are expanded into signed
//! postings, postings are folded into per-account balances, and the sum of all
//! final balances gives a check figure that is zero for a consistent ledger.

pub mod balance;
pub mod expand;
pub mod laws;
pub mod models;
pub mod text;
