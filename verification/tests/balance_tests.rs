use ledger::balance::{
    accumulate, balance, check_figure_of, check_limits, seed_entries_from, MAX_LEDGER_WEIGHT,
};
use ledger::expand::expand_transactions;
use ledger::models::{Account, LedgerFile, Posting, Transaction, TransactionList};

fn account(name: &str, account_type: &str, amount: i64) -> Account {
    Account {
        account: String::from(name),
        account_type: String::from(account_type),
        amount,
    }
}

fn simple(account: &str, account_type: &str, offset: &str, amount: i64) -> Transaction {
    Transaction {
        date: String::from("2024-01-01"),
        description: String::from("test"),
        account: String::from(account),
        account_type: String::from(account_type),
        offset_account: String::from(offset),
        amount,
        transaction: None,
    }
}

fn posting(account: &str, account_type: &str, offset: &str, amount: i64) -> Posting {
    Posting {
        account: String::from(account),
        account_type: String::from(account_type),
        offset_account: String::from(offset),
        amount,
    }
}

#[test]
fn income_transaction_balances_cash_against_revenue() {
    let file = LedgerFile {
        accounts: vec![account("Cash", "asset", 0), account("Revenue", "income", 0)],
        transactions: vec![simple("Revenue", "income", "Cash", 100)],
    };
    let report = balance(&file).unwrap();
    assert_eq!(report.entries.len(), 2);
    assert_eq!(report.entries[0].account, "Cash");
    assert_eq!(report.entries[0].amount, 100);
    assert_eq!(report.entries[1].account, "Revenue");
    assert_eq!(report.entries[1].amount, -100);
    assert_eq!(report.check_figure, 0);
}

#[test]
fn split_expense_decrements_offset_for_every_posting() {
    let file = LedgerFile {
        accounts: vec![
            account("Cash", "asset", 0),
            account("Rent", "expense", 0),
            account("Utilities", "expense", 0),
            account("Expenses", "expense", 0),
        ],
        transactions: vec![Transaction {
            date: String::from("2024-02-02"),
            description: String::from("monthly bills"),
            account: String::from("Expenses"),
            account_type: String::from("expense"),
            offset_account: String::from("Cash"),
            amount: 100,
            transaction: Some(vec![
                TransactionList {
                    account: String::from("Rent"),
                    account_type: None,
                    amount: 60,
                },
                TransactionList {
                    account: String::from("Utilities"),
                    account_type: None,
                    amount: 30,
                },
            ]),
        }],
    };
    let report = balance(&file).unwrap();
    assert_eq!(report.entries[0].amount, -100);
    assert_eq!(report.entries[1].amount, 60);
    assert_eq!(report.entries[2].amount, 30);
    assert_eq!(report.entries[3].amount, 10);
    assert_eq!(report.check_figure, 0);
}

#[test]
fn matching_is_case_insensitive_on_both_sides() {
    let mut entries = seed_entries_from(&vec![
        account("Cash", "asset", 0),
        account("Savings", "asset", 0),
    ]);
    let postings = vec![
        posting("CASH", "asset", "nobody", 25),
        posting("cash", "asset", "nobody", 10),
        posting("nobody", "asset", "cAsH", 5),
    ];
    accumulate(&mut entries, &postings);
    assert_eq!(entries[0].amount, 25 + 10 - 5);
    assert_eq!(entries[1].amount, 0);
}

#[test]
fn primary_match_is_type_sensitive_offset_match_is_not() {
    let mut entries = seed_entries_from(&vec![account("Cash", "asset", 0)]);
    let postings = vec![
        posting("Cash", "liability", "nobody", 40),
        posting("nobody", "liability", "Cash", 7),
    ];
    accumulate(&mut entries, &postings);
    assert_eq!(entries[0].amount, -7);
}

#[test]
fn unmatched_postings_are_dropped_silently() {
    let file = LedgerFile {
        accounts: vec![account("Cash", "asset", 50)],
        transactions: vec![simple("Unknown", "asset", "AlsoUnknown", 10)],
    };
    let report = balance(&file).unwrap();
    assert_eq!(report.entries[0].amount, 50);
    assert_eq!(report.check_figure, 50);
}

#[test]
fn multiple_matching_entries_all_update() {
    let mut entries = seed_entries_from(&vec![
        account("cash", "asset", 0),
        account("CASH", "asset", 0),
    ]);
    let postings = vec![posting("Cash", "asset", "nobody", 8)];
    accumulate(&mut entries, &postings);
    assert_eq!(entries[0].amount, 8);
    assert_eq!(entries[1].amount, 8);
}

#[test]
fn self_offsetting_entry_takes_both_adjustments() {
    let mut entries = seed_entries_from(&vec![account("Cash", "asset", 3)]);
    let postings = vec![posting("Cash", "asset", "Cash", 9)];
    accumulate(&mut entries, &postings);
    assert_eq!(entries[0].amount, 3 + 9 - 9);
}

#[test]
fn check_figure_identity_for_fully_matched_ledger() {
    let file = LedgerFile {
        accounts: vec![account("Checking", "asset", -80)],
        transactions: vec![simple("Checking", "asset", "Nowhere", 80)],
    };
    let report = balance(&file).unwrap();
    assert_eq!(report.check_figure, 0);
}

#[test]
fn empty_ledger_has_zero_check_figure() {
    let file = LedgerFile {
        accounts: vec![],
        transactions: vec![],
    };
    let report = balance(&file).unwrap();
    assert_eq!(report.entries.len(), 0);
    assert_eq!(report.check_figure, 0);
}

#[test]
fn check_figure_of_sums_entries() {
    let entries = seed_entries_from(&vec![
        account("A", "asset", 12),
        account("B", "asset", -5),
        account("C", "equity", -7),
    ]);
    assert_eq!(check_figure_of(&entries), 0);
}

#[test]
fn oversized_opening_amount_is_rejected() {
    let file = LedgerFile {
        accounts: vec![account("Cash", "asset", MAX_LEDGER_WEIGHT)],
        transactions: vec![simple("Cash", "asset", "Nowhere", 1)],
    };
    assert!(!check_limits(&file));
    assert!(balance(&file).is_none());
}

#[test]
fn minimum_amount_is_rejected() {
    let file = LedgerFile {
        accounts: vec![account("Cash", "asset", i64::MIN)],
        transactions: vec![],
    };
    assert!(!check_limits(&file));
    assert!(balance(&file).is_none());
}

#[test]
fn ledger_at_the_weight_limit_is_accepted() {
    let file = LedgerFile {
        accounts: vec![account("Cash", "asset", MAX_LEDGER_WEIGHT - 1)],
        transactions: vec![simple("Cash", "asset", "Nowhere", -1)],
    };
    assert!(check_limits(&file));
    let report = balance(&file).unwrap();
    assert_eq!(report.check_figure, MAX_LEDGER_WEIGHT - 2);
}

#[test]
fn too_many_accounts_are_rejected() {
    let mut accounts = Vec::new();
    for _ in 0..1_000_001 {
        accounts.push(account("", "", 0));
    }
    let file = LedgerFile {
        accounts,
        transactions: vec![],
    };
    assert!(!check_limits(&file));
    assert!(balance(&file).is_none());
}

#[test]
fn nonzero_check_figure_is_reported_not_rejected() {
    let file = LedgerFile {
        accounts: vec![account("Cash", "asset", 0)],
        transactions: vec![simple("Cash", "asset", "Nowhere", 33)],
    };
    let report = balance(&file).unwrap();
    assert_eq!(report.check_figure, 33);
}

#[test]
fn group_order_follows_account_order() {
    let file = LedgerFile {
        accounts: vec![
            account("Cash", "asset", 1),
            account("Loan", "liability", 2),
            account("Savings", "asset", 3),
        ],
        transactions: vec![],
    };
    let report = balance(&file).unwrap();
    let types: Vec<&str> = report
        .entries
        .iter()
        .map(|e| e.account_type.as_str())
        .collect();
    assert_eq!(types, vec!["asset", "liability", "asset"]);
}

#[test]
fn expansion_feeds_accumulation_like_the_pipeline() {
    let transactions = vec![
        simple("Revenue", "income", "Cash", 100),
        simple("Groceries", "expense", "Cash", 40),
    ];
    let postings = expand_transactions(&transactions);
    let mut entries = seed_entries_from(&vec![
        account("Cash", "asset", 0),
        account("Revenue", "income", 0),
        account("Groceries", "expense", 0),
    ]);
    accumulate(&mut entries, &postings);
    assert_eq!(entries[0].amount, 100 - 40);
    assert_eq!(entries[1].amount, -100);
    assert_eq!(entries[2].amount, 40);
    assert_eq!(check_figure_of(&entries), 0);
}
