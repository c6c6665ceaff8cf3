use ledger::expand::{expand_transaction, expand_transactions, sign_convention};
use ledger::models::{Transaction, TransactionList};
use ledger::text::{eq_ignore_ascii_case, is_income};

fn simple(account: &str, account_type: &str, offset: &str, amount: i64) -> Transaction {
    Transaction {
        date: String::from("2024-01-01"),
        description: String::from("test"),
        account: String::from(account),
        account_type: String::from(account_type),
        offset_account: String::from(offset),
        amount,
        transaction: None,
    }
}

fn split(
    account: &str,
    account_type: &str,
    offset: &str,
    amount: i64,
    legs: Vec<TransactionList>,
) -> Transaction {
    Transaction {
        date: String::from("2024-01-01"),
        description: String::from("test"),
        account: String::from(account),
        account_type: String::from(account_type),
        offset_account: String::from(offset),
        amount,
        transaction: Some(legs),
    }
}

fn leg(account: &str, account_type: Option<&str>, amount: i64) -> TransactionList {
    TransactionList {
        account: String::from(account),
        account_type: account_type.map(String::from),
        amount,
    }
}

#[test]
fn eq_ignore_ascii_case_matches_all_casings() {
    assert!(eq_ignore_ascii_case("Cash", "cash"));
    assert!(eq_ignore_ascii_case("Cash", "CASH"));
    assert!(eq_ignore_ascii_case("Cash", "cAsH"));
    assert!(!eq_ignore_ascii_case("Cash", "Cash "));
    assert!(!eq_ignore_ascii_case("Cash", "Bank"));
    assert!(eq_ignore_ascii_case("", ""));
}

#[test]
fn is_income_only_for_exact_lowercase_tag() {
    assert!(is_income(&String::from("income")));
    assert!(!is_income(&String::from("Income")));
    assert!(!is_income(&String::from("expense")));
}

#[test]
fn sign_convention_negates_income_only() {
    assert_eq!(sign_convention(&String::from("income"), 100), -100);
    assert_eq!(sign_convention(&String::from("asset"), 100), 100);
    assert_eq!(sign_convention(&String::from("expense"), -40), -40);
    assert_eq!(sign_convention(&String::from("income"), -40), 40);
}

#[test]
fn simple_income_transaction_posts_negated_amount() {
    let t = simple("Revenue", "income", "Cash", 100);
    let postings = expand_transaction(&t);
    assert_eq!(postings.len(), 1);
    assert_eq!(postings[0].account, "Revenue");
    assert_eq!(postings[0].account_type, "income");
    assert_eq!(postings[0].offset_account, "Cash");
    assert_eq!(postings[0].amount, -100);
}

#[test]
fn simple_non_income_transaction_posts_raw_amount() {
    let t = simple("Groceries", "expense", "Cash", 55);
    let postings = expand_transaction(&t);
    assert_eq!(postings.len(), 1);
    assert_eq!(postings[0].amount, 55);
}

#[test]
fn split_posts_raw_legs_then_remainder() {
    let t = split(
        "Expenses",
        "expense",
        "Cash",
        100,
        vec![leg("Rent", None, 60), leg("Utilities", None, 30)],
    );
    let postings = expand_transaction(&t);
    assert_eq!(postings.len(), 3);
    assert_eq!(postings[0].account, "Rent");
    assert_eq!(postings[0].amount, 60);
    assert_eq!(postings[1].account, "Utilities");
    assert_eq!(postings[1].amount, 30);
    assert_eq!(postings[2].account, "Expenses");
    assert_eq!(postings[2].amount, 10);
    let total: i64 = postings.iter().map(|p| p.amount).sum();
    assert_eq!(total, 100);
}

#[test]
fn split_conservation_holds_for_each_expansion() {
    let t = split(
        "Stuff",
        "expense",
        "Cash",
        250,
        vec![leg("A", None, 70), leg("B", None, -20), leg("C", None, 95)],
    );
    let postings = expand_transaction(&t);
    let leg_sum: i64 = postings[..3].iter().map(|p| p.amount).sum();
    let remainder = postings[3].amount;
    assert_eq!(leg_sum + remainder, 250);
}

#[test]
fn income_split_posts_raw_leg_but_negates_credit() {
    let t = split("Revenue", "income", "Cash", 100, vec![leg("Sales", None, 40)]);
    let postings = expand_transaction(&t);
    assert_eq!(postings.len(), 2);
    assert_eq!(postings[0].account, "Sales");
    assert_eq!(postings[0].amount, 40);
    assert_eq!(postings[1].account, "Revenue");
    assert_eq!(postings[1].amount, 140);
}

#[test]
fn leg_without_type_inherits_parent_type() {
    let t = split(
        "Expenses",
        "expense",
        "Cash",
        90,
        vec![leg("Rent", None, 60), leg("Owner", Some("equity"), 30)],
    );
    let postings = expand_transaction(&t);
    assert_eq!(postings[0].account_type, "expense");
    assert_eq!(postings[1].account_type, "equity");
    assert_eq!(postings[2].account_type, "expense");
}

#[test]
fn income_leg_type_test_uses_parent_not_leg() {
    let t = split(
        "Mixed",
        "expense",
        "Cash",
        10,
        vec![leg("Sales", Some("income"), 40)],
    );
    let postings = expand_transaction(&t);
    assert_eq!(postings[0].amount, 40);
    assert_eq!(postings[1].amount, 10 - 40);
}

#[test]
fn expansion_concatenates_in_input_order() {
    let ts = vec![
        simple("A", "asset", "B", 5),
        split("C", "expense", "D", 9, vec![leg("E", None, 4)]),
    ];
    let postings = expand_transactions(&ts);
    assert_eq!(postings.len(), 3);
    assert_eq!(postings[0].account, "A");
    assert_eq!(postings[1].account, "E");
    assert_eq!(postings[2].account, "C");
    assert_eq!(postings[2].amount, 5);
}

#[test]
fn split_with_no_legs_posts_full_amount_as_remainder() {
    let t = split("Expenses", "expense", "Cash", 75, vec![]);
    let postings = expand_transaction(&t);
    assert_eq!(postings.len(), 1);
    assert_eq!(postings[0].account, "Expenses");
    assert_eq!(postings[0].amount, 75);
}
