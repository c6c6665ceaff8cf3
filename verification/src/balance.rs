//! The balance accumulator: opening balances are seeded from the accounts,
//! every posting is folded into every matching balance entry, and the check
//! figure is the sum of all final balances.
//!
//! A posting adjusts an entry on two independent sides: the primary side
//! adds the posting amount where the account name matches case-insensitively
//! and the account type matches exactly; the offset side subtracts the
//! posting amount where the name matches the posting's offset account
//! case-insensitively, with no type test. Zero, one or several entries may
//! match either side, and both sides may fire on the same entry.

use vstd::math::abs;
use vstd::prelude::*;

use crate::expand::{
    expand_transactions, lemma_postings_weight_of, lemma_posting_abs_le,
    lemma_txns_weight_upto_monotone, postings_of, postings_weight, postings_weight_upto,
    lemma_postings_weight_upto_monotone, txn_weight, txns_weight, txns_weight_upto,
    legs_weight_upto, lemma_legs_weight_upto_monotone,
};
use crate::models::{
    Account, AccountV, BalanceEntry, BalanceEntryV, LedgerFile, LedgerFileV, Posting, PostingV,
    Transaction, TransactionList, account_views, entry_views, posting_views, transaction_views,
};
use crate::text::{eq_ignore_ascii_case, eq_ignore_case};

verus! {

/// The largest combined magnitude (sum of absolute amounts, opening and
/// transactional) a ledger may have: small enough that no fold below can
/// overflow a 64-bit amount.
pub const MAX_LEDGER_WEIGHT: i64 = 1_000_000_000_000;

/// The largest number of accounts a ledger may have.
pub const MAX_ACCOUNTS: usize = 1_000_000;

/// A posting's primary side hits an entry whose name matches
/// case-insensitively and whose type matches exactly.
pub open spec fn primary_matches(e: BalanceEntryV, p: PostingV) -> bool {
    eq_ignore_case(e.account, p.account) && e.account_type == p.account_type
}

/// A posting's offset side hits an entry whose name matches the offset
/// account case-insensitively; the type is not tested.
pub open spec fn offset_matches(e: BalanceEntryV, p: PostingV) -> bool {
    eq_ignore_case(e.account, p.offset_account)
}

/// One entry after one posting: the posting amount is added on a primary
/// match and subtracted on an offset match; both can apply at once.
pub open spec fn apply_posting_entry(e: BalanceEntryV, p: PostingV) -> BalanceEntryV {
    let after_primary = if primary_matches(e, p) {
        e.amount + p.amount
    } else {
        e.amount
    };
    let after_offset = if offset_matches(e, p) {
        after_primary - p.amount
    } else {
        after_primary
    };
    BalanceEntryV { account: e.account, account_type: e.account_type, amount: after_offset }
}

/// All entries after one posting: every entry is adjusted independently.
pub open spec fn apply_posting(es: Seq<BalanceEntryV>, p: PostingV) -> Seq<BalanceEntryV> {
    es.map_values(|e: BalanceEntryV| apply_posting_entry(e, p))
}

/// All entries after the first `n` postings, applied in order.
pub open spec fn apply_postings_upto(
    es: Seq<BalanceEntryV>,
    ps: Seq<PostingV>,
    n: int,
) -> Seq<BalanceEntryV>
    decreases n,
{
    if n <= 0 {
        es
    } else {
        apply_posting(apply_postings_upto(es, ps, n - 1), ps[n - 1])
    }
}

/// All entries after a whole posting sequence.
pub open spec fn apply_postings(es: Seq<BalanceEntryV>, ps: Seq<PostingV>) -> Seq<BalanceEntryV> {
    apply_postings_upto(es, ps, ps.len() as int)
}

/// The balance entry an account seeds: its opening amount under its own
/// name and type.
pub open spec fn seed_entry(a: AccountV) -> BalanceEntryV {
    BalanceEntryV { account: a.account, account_type: a.account_type, amount: a.amount }
}

/// The opening balance entries, one per account, in account order.
pub open spec fn seed_entries(accounts: Seq<AccountV>) -> Seq<BalanceEntryV> {
    accounts.map_values(|a: AccountV| seed_entry(a))
}

/// Sum of the amounts of the first `n` entries.
pub open spec fn sum_amounts_upto(es: Seq<BalanceEntryV>, n: int) -> int
    decreases n,
{
    if n <= 0 {
        0
    } else {
        sum_amounts_upto(es, n - 1) + es[n - 1].amount
    }
}

/// Sum of the amounts of all entries.
pub open spec fn sum_amounts(es: Seq<BalanceEntryV>) -> int {
    sum_amounts_upto(es, es.len() as int)
}

/// Sum of the absolute amounts of the first `n` entries.
pub open spec fn entries_weight_upto(es: Seq<BalanceEntryV>, n: int) -> int
    decreases n,
{
    if n <= 0 {
        0
    } else {
        entries_weight_upto(es, n - 1) + abs(es[n - 1].amount)
    }
}

/// Sum of the absolute amounts of all entries.
pub open spec fn entries_weight(es: Seq<BalanceEntryV>) -> int {
    entries_weight_upto(es, es.len() as int)
}

/// Sum of the absolute opening amounts of the first `n` accounts.
pub open spec fn accounts_weight_upto(accounts: Seq<AccountV>, n: int) -> int
    decreases n,
{
    if n <= 0 {
        0
    } else {
        accounts_weight_upto(accounts, n - 1) + abs(accounts[n - 1].amount)
    }
}

/// Sum of the absolute opening amounts of all accounts.
pub open spec fn accounts_weight(accounts: Seq<AccountV>) -> int {
    accounts_weight_upto(accounts, accounts.len() as int)
}

/// The combined magnitude of a ledger: absolute opening amounts plus the
/// magnitudes of all transactions.
pub open spec fn ledger_weight(f: LedgerFileV) -> int {
    accounts_weight(f.accounts) + txns_weight(f.transactions)
}

/// A ledger a balance computation accepts: magnitudes small enough that
/// exact 64-bit arithmetic cannot overflow anywhere in the fold.
pub open spec fn within_limits(f: LedgerFileV) -> bool {
    ledger_weight(f) <= MAX_LEDGER_WEIGHT as int && f.accounts.len() <= MAX_ACCOUNTS as int
}

/// The final balance entries of a ledger: opening balances in account
/// order, with every posting of every transaction folded in.
pub open spec fn final_entries(f: LedgerFileV) -> Seq<BalanceEntryV> {
    apply_postings(seed_entries(f.accounts), postings_of(f.transactions))
}

/// The check figure of a ledger: the sum of all final balances, zero for an
/// internally consistent ledger.
pub open spec fn check_figure(f: LedgerFileV) -> int {
    sum_amounts(final_entries(f))
}

pub proof fn lemma_entries_weight_upto_monotone(es: Seq<BalanceEntryV>, m: int, n: int)
    requires
        m <= n,
    ensures
        entries_weight_upto(es, m) <= entries_weight_upto(es, n),
    decreases n - m,
{
    if m < n {
        lemma_entries_weight_upto_monotone(es, m, n - 1);
    }
}

/// The absolute amount of one entry is at most the weight of any sequence
/// it stands in.
pub proof fn lemma_entry_abs_le(es: Seq<BalanceEntryV>, i: int)
    requires
        0 <= i < es.len(),
    ensures
        abs(es[i].amount) <= entries_weight(es),
{
    lemma_entries_weight_upto_monotone(es, 0, i);
    lemma_entries_weight_upto_monotone(es, i + 1, es.len() as int);
}

pub proof fn lemma_accounts_weight_upto_monotone(accounts: Seq<AccountV>, m: int, n: int)
    requires
        m <= n,
    ensures
        accounts_weight_upto(accounts, m) <= accounts_weight_upto(accounts, n),
    decreases n - m,
{
    if m < n {
        lemma_accounts_weight_upto_monotone(accounts, m, n - 1);
    }
}

/// A partial sum of entry amounts is bounded by the entry weight.
pub proof fn lemma_sum_amounts_upto_bound(es: Seq<BalanceEntryV>, n: int)
    ensures
        abs(sum_amounts_upto(es, n)) <= entries_weight_upto(es, n),
    decreases n,
{
    if n > 0 {
        lemma_sum_amounts_upto_bound(es, n - 1);
    }
}

/// Applying postings keeps the number of entries and each entry's name and
/// type, and moves each amount by at most twice the weight of the postings
/// applied.
pub proof fn lemma_apply_postings_upto_shape(
    es: Seq<BalanceEntryV>,
    ps: Seq<PostingV>,
    n: int,
)
    requires
        n >= 0,
    ensures
        apply_postings_upto(es, ps, n).len() == es.len(),
        forall|m: int|
            0 <= m < es.len() ==> {
                let cur = #[trigger] apply_postings_upto(es, ps, n)[m];
                cur.account == es[m].account && cur.account_type == es[m].account_type && abs(
                    cur.amount,
                ) <= abs(es[m].amount) + 2 * postings_weight_upto(ps, n)
            },
    decreases n,
{
    if n > 0 {
        lemma_apply_postings_upto_shape(es, ps, n - 1);
        let prev = apply_postings_upto(es, ps, n - 1);
        let cur = apply_postings_upto(es, ps, n);
        assert forall|m: int| 0 <= m < es.len() implies {
            let c = #[trigger] cur[m];
            c.account == es[m].account && c.account_type == es[m].account_type && abs(c.amount)
                <= abs(es[m].amount) + 2 * postings_weight_upto(ps, n)
        } by {
            assert(cur[m] == apply_posting_entry(prev[m], ps[n - 1]));
        }
    }
}

/// Entries whose amounts moved by at most `bound` each weigh at most the
/// old weight plus `bound` per entry.
pub proof fn lemma_entries_weight_pointwise(
    a: Seq<BalanceEntryV>,
    b: Seq<BalanceEntryV>,
    bound: int,
    n: int,
)
    requires
        0 <= n <= a.len(),
        a.len() == b.len(),
        bound >= 0,
        forall|m: int| 0 <= m < a.len() ==> abs(#[trigger] b[m].amount) <= abs(a[m].amount) + bound,
    ensures
        entries_weight_upto(b, n) <= entries_weight_upto(a, n) + n * bound,
    decreases n,
{
    if n > 0 {
        lemma_entries_weight_pointwise(a, b, bound, n - 1);
        assert(n * bound == (n - 1) * bound + bound) by (nonlinear_arith);
    }
}

/// Seeding balance entries from accounts keeps the combined magnitude.
pub proof fn lemma_seed_entries_weight(accounts: Seq<AccountV>, n: int)
    requires
        n <= accounts.len(),
    ensures
        entries_weight_upto(seed_entries(accounts), n) == accounts_weight_upto(accounts, n),
    decreases n,
{
    if n > 0 {
        lemma_seed_entries_weight(accounts, n - 1);
        assert(seed_entries(accounts)[n - 1] == seed_entry(accounts[n - 1]));
    }
}

/// Seeds one balance entry per account, in account order, each starting at
/// the account's opening amount.
pub fn seed_entries_from(accounts: &Vec<Account>) -> (r: Vec<BalanceEntry>)
    ensures
        entry_views(r@) == seed_entries(account_views(accounts@)),
{
    let ghost av = account_views(accounts@);
    let mut out: Vec<BalanceEntry> = Vec::new();
    let mut i: usize = 0;
    while i < accounts.len()
        invariant
            i <= accounts.len(),
            av == account_views(accounts@),
            out@.len() == i,
            forall|j: int| 0 <= j < i ==> #[trigger] out@[j]@ == seed_entry(av[j]),
        decreases accounts.len() - i,
    {
        let a = &accounts[i];
        out.push(
            BalanceEntry {
                account: a.account.clone(),
                account_type: a.account_type.clone(),
                amount: a.amount,
            },
        );
        i += 1;
    }
    proof {
        assert(entry_views(out@) =~= seed_entries(av));
    }
    out
}

/// Folds every posting into every matching balance entry, in posting order:
/// the primary side adds, the offset side subtracts, all matches update, a
/// posting without a match is dropped silently.
#[verifier::loop_isolation(false)]
pub fn accumulate(entries: &mut Vec<BalanceEntry>, postings: &Vec<Posting>)
    requires
        entries_weight(entry_views(old(entries)@)) + 2 * postings_weight(
            posting_views(postings@),
        ) <= i64::MAX as int,
    ensures
        entry_views(final(entries)@) == apply_postings(
            entry_views(old(entries)@),
            posting_views(postings@),
        ),
{
    let ghost ev0 = entry_views(entries@);
    let ghost pv = posting_views(postings@);
    let mut k: usize = 0;
    while k < postings.len()
        invariant
            k <= postings.len(),
            entry_views(entries@) == apply_postings_upto(ev0, pv, k as int),
            entries@.len() == ev0.len(),
        decreases postings.len() - k,
    {
        let ghost before = entry_views(entries@);
        proof {
            lemma_apply_postings_upto_shape(ev0, pv, k as int);
            lemma_postings_weight_upto_monotone(pv, k + 1, pv.len() as int);
            lemma_postings_weight_upto_monotone(pv, 0, k as int);
            lemma_posting_abs_le(pv, k as int);
        }
        let p = &postings[k];
        let mut j: usize = 0;
        while j < entries.len()
            invariant
                j <= entries.len(),
                entries@.len() == ev0.len(),
                k < postings.len(),
                forall|m: int|
                    0 <= m < j ==> #[trigger] entries@[m]@ == apply_posting_entry(
                        before[m],
                        pv[k as int],
                    ),
                forall|m: int| j <= m < entries@.len() ==> #[trigger] entries@[m]@ == before[m],
            decreases entries.len() - j,
        {
            proof {
                lemma_entry_abs_le(ev0, j as int);
                assert(entries@[j as int]@ == before[j as int]);
            }
            let primary = eq_ignore_ascii_case(entries[j].account.as_str(), p.account.as_str())
                && entries[j].account_type == p.account_type;
            let offset = eq_ignore_ascii_case(
                entries[j].account.as_str(),
                p.offset_account.as_str(),
            );
            let mut amount = entries[j].amount;
            if primary {
                amount = amount + p.amount;
            }
            if offset {
                amount = amount - p.amount;
            }
            entries[j].amount = amount;
            proof {
                assert(entries@[j as int]@ == apply_posting_entry(before[j as int], pv[k as int]));
            }
            j += 1;
        }
        proof {
            assert(entry_views(entries@) =~= apply_posting(before, pv[k as int]));
        }
        k += 1;
    }
}

/// Decides whether a ledger's magnitudes are small enough for the exact
/// 64-bit fold, walking every opening amount, transaction amount and leg
/// amount and giving up as soon as the running total passes the limit.
#[verifier::loop_isolation(false)]
pub fn check_limits(file: &LedgerFile) -> (r: bool)
    ensures
        r == within_limits(file@),
{
    let ghost av = file@.accounts;
    let ghost tv = file@.transactions;
    proof {
        lemma_accounts_weight_upto_monotone(av, 0, av.len() as int);
        lemma_txns_weight_upto_monotone(tv, 0, tv.len() as int);
    }
    if file.accounts.len() > MAX_ACCOUNTS {
        return false;
    }
    let mut w: i64 = 0;
    let mut i: usize = 0;
    while i < file.accounts.len()
        invariant
            i <= file.accounts.len(),
            w as int == accounts_weight_upto(av, i as int),
            0 <= w <= MAX_LEDGER_WEIGHT,
        decreases file.accounts.len() - i,
    {
        proof {
            lemma_accounts_weight_upto_monotone(av, i + 1, av.len() as int);
        }
        let amt = file.accounts[i].amount;
        if amt == i64::MIN {
            return false;
        }
        let ab = if amt < 0 {
            -amt
        } else {
            amt
        };
        if ab > MAX_LEDGER_WEIGHT - w {
            return false;
        }
        w = w + ab;
        i += 1;
    }
    let mut k: usize = 0;
    while k < file.transactions.len()
        invariant
            k <= file.transactions.len(),
            w as int == accounts_weight(av) + txns_weight_upto(tv, k as int),
            0 <= w <= MAX_LEDGER_WEIGHT,
        decreases file.transactions.len() - k,
    {
        proof {
            lemma_txns_weight_upto_monotone(tv, k + 1, tv.len() as int);
        }
        let t = &file.transactions[k];
        let amt = t.amount;
        if amt == i64::MIN {
            proof {
                lemma_legs_weight_nonneg_of(tv[k as int]);
            }
            return false;
        }
        let ab = if amt < 0 {
            -amt
        } else {
            amt
        };
        if ab > MAX_LEDGER_WEIGHT - w {
            proof {
                lemma_legs_weight_nonneg_of(tv[k as int]);
            }
            return false;
        }
        let mut tw: i64 = ab;
        match &t.transaction {
            Some(legs) => {
                let ghost lv = legs@.map_values(|l: TransactionList| l@);
                let mut j: usize = 0;
                while j < legs.len()
                    invariant
                        j <= legs.len(),
                        tw as int == abs(tv[k as int].amount) + legs_weight_upto(lv, j as int),
                        0 <= tw,
                        w + tw <= MAX_LEDGER_WEIGHT,
                    decreases legs.len() - j,
                {
                    proof {
                        lemma_legs_weight_upto_monotone(lv, j + 1, lv.len() as int);
                    }
                    let lamt = legs[j].amount;
                    if lamt == i64::MIN {
                        return false;
                    }
                    let lab = if lamt < 0 {
                        -lamt
                    } else {
                        lamt
                    };
                    if lab > MAX_LEDGER_WEIGHT - w - tw {
                        return false;
                    }
                    tw = tw + lab;
                    j += 1;
                }
            },
            None => {},
        }
        w = w + tw;
        k += 1;
    }
    true
}

proof fn lemma_legs_weight_nonneg_of(t: crate::models::TransactionV)
    ensures
        txn_weight(t) >= abs(t.amount),
{
    match t.transaction {
        Some(legs) => lemma_legs_weight_upto_monotone(legs, 0, legs.len() as int),
        None => (),
    }
}

/// Sums the final balances: the check figure, zero for a consistent ledger.
#[verifier::loop_isolation(false)]
pub fn check_figure_of(entries: &Vec<BalanceEntry>) -> (r: i64)
    requires
        entries_weight(entry_views(entries@)) <= i64::MAX as int,
    ensures
        r as int == sum_amounts(entry_views(entries@)),
{
    let ghost ev = entry_views(entries@);
    let mut sum: i64 = 0;
    let mut i: usize = 0;
    while i < entries.len()
        invariant
            i <= entries.len(),
            sum as int == sum_amounts_upto(ev, i as int),
        decreases entries.len() - i,
    {
        proof {
            lemma_sum_amounts_upto_bound(ev, i as int);
            lemma_entries_weight_upto_monotone(ev, i + 1, ev.len() as int);
            lemma_entries_weight_upto_monotone(ev, 0, i as int);
        }
        sum = sum + entries[i].amount;
        i += 1;
    }
    sum
}

/// The result of one balance computation: the final balance entries in
/// account order, and their sum.
pub struct BalanceReport {
    pub entries: Vec<BalanceEntry>,
    pub check_figure: i64,
}

/// Computes the balances of all general ledger accounts: expands every
/// transaction into postings, folds them into the opening balances, and sums
/// the result into the check figure. Returns `None` exactly when the
/// ledger's magnitudes pass the limits of the exact 64-bit fold.
pub fn balance(file: &LedgerFile) -> (r: Option<BalanceReport>)
    ensures
        r is Some <==> within_limits(file@),
        match r {
            Some(rep) => entry_views(rep.entries@) == final_entries(file@)
                && rep.check_figure as int == check_figure(file@),
            None => true,
        },
{
    let ghost av = file@.accounts;
    let ghost tv = file@.transactions;
    if !check_limits(file) {
        return None;
    }
    proof {
        lemma_accounts_weight_upto_monotone(av, 0, av.len() as int);
        lemma_txns_weight_upto_monotone(tv, 0, tv.len() as int);
    }
    let postings = expand_transactions(&file.transactions);
    let ghost pv = posting_views(postings@);
    let ghost ev0 = seed_entries(av);
    proof {
        lemma_postings_weight_of(tv, tv.len() as int);
        lemma_postings_weight_upto_monotone(pv, 0, pv.len() as int);
        lemma_seed_entries_weight(av, av.len() as int);
    }
    let mut entries = seed_entries_from(&file.accounts);
    accumulate(&mut entries, &postings);
    proof {
        lemma_apply_postings_upto_shape(ev0, pv, pv.len() as int);
        lemma_entries_weight_pointwise(
            ev0,
            apply_postings(ev0, pv),
            2 * postings_weight(pv),
            ev0.len() as int,
        );
        assert(ev0.len() * (2 * postings_weight(pv)) <= 1_000_000 * (4 * MAX_LEDGER_WEIGHT as int))
            by (nonlinear_arith)
            requires
                0 <= ev0.len() <= 1_000_000,
                0 <= 2 * postings_weight(pv) <= 4 * MAX_LEDGER_WEIGHT as int,
        ;
    }
    let check_figure = check_figure_of(&entries);
    Some(BalanceReport { entries, check_figure })
}

} // verus!
