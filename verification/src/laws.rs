//! The laws of the ledger: how the check figure decomposes over postings,
//! what a split transaction conserves, and how matching treats case, type
//! and sign. Each public proof function states one law; the spec functions
//! here name the sums the laws speak of.

use vstd::prelude::*;

use crate::balance::{
    apply_posting, apply_posting_entry, apply_postings, apply_postings_upto, check_figure,
    final_entries, lemma_apply_postings_upto_shape, offset_matches, primary_matches, seed_entries,
    seed_entry, sum_amounts, sum_amounts_upto,
};
use crate::expand::{
    credit_total, credit_total_upto, leg_posting, leg_postings_upto, postings_of,
    postings_of_transaction, postings_upto, remainder_posting, sign_amount, simple_posting,
};
use crate::models::{AccountV, BalanceEntryV, LedgerFileV, PostingV, TransactionListV, TransactionV};
use crate::text::eq_ignore_case;

verus! {

/// Sum of the opening amounts of the first `n` accounts.
pub open spec fn opening_total_upto(accounts: Seq<AccountV>, n: int) -> int
    decreases n,
{
    if n <= 0 {
        0
    } else {
        opening_total_upto(accounts, n - 1) + accounts[n - 1].amount
    }
}

/// Sum of all opening amounts.
pub open spec fn opening_total(accounts: Seq<AccountV>) -> int {
    opening_total_upto(accounts, accounts.len() as int)
}

/// Sum of the stated amounts of the first `n` transactions, before any sign
/// adjustment.
pub open spec fn stated_total_upto(ts: Seq<TransactionV>, n: int) -> int
    decreases n,
{
    if n <= 0 {
        0
    } else {
        stated_total_upto(ts, n - 1) + ts[n - 1].amount
    }
}

/// Sum of all stated transaction amounts.
pub open spec fn stated_total(ts: Seq<TransactionV>) -> int {
    stated_total_upto(ts, ts.len() as int)
}

/// Sum of the amounts of the first `n` postings.
pub open spec fn posted_total_upto(ps: Seq<PostingV>, n: int) -> int
    decreases n,
{
    if n <= 0 {
        0
    } else {
        posted_total_upto(ps, n - 1) + ps[n - 1].amount
    }
}

/// Sum of all posted amounts.
pub open spec fn posted_total(ps: Seq<PostingV>) -> int {
    posted_total_upto(ps, ps.len() as int)
}

/// Sum of the raw amounts of the first `n` legs.
pub open spec fn legs_total_upto(legs: Seq<TransactionListV>, n: int) -> int
    decreases n,
{
    if n <= 0 {
        0
    } else {
        legs_total_upto(legs, n - 1) + legs[n - 1].amount
    }
}

/// Sum of all raw leg amounts.
pub open spec fn legs_total(legs: Seq<TransactionListV>) -> int {
    legs_total_upto(legs, legs.len() as int)
}

/// How many of the first `n` entries a posting's primary side hits.
pub open spec fn count_primary_upto(es: Seq<BalanceEntryV>, p: PostingV, n: int) -> int
    decreases n,
{
    if n <= 0 {
        0
    } else {
        count_primary_upto(es, p, n - 1) + if primary_matches(es[n - 1], p) {
            1 as int
        } else {
            0
        }
    }
}

/// How many entries a posting's primary side hits.
pub open spec fn count_primary(es: Seq<BalanceEntryV>, p: PostingV) -> int {
    count_primary_upto(es, p, es.len() as int)
}

/// How many of the first `n` entries a posting's offset side hits.
pub open spec fn count_offset_upto(es: Seq<BalanceEntryV>, p: PostingV, n: int) -> int
    decreases n,
{
    if n <= 0 {
        0
    } else {
        count_offset_upto(es, p, n - 1) + if offset_matches(es[n - 1], p) {
            1 as int
        } else {
            0
        }
    }
}

/// How many entries a posting's offset side hits.
pub open spec fn count_offset(es: Seq<BalanceEntryV>, p: PostingV) -> int {
    count_offset_upto(es, p, es.len() as int)
}

/// What one posting moves one entry by.
pub open spec fn entry_delta(e: BalanceEntryV, p: PostingV) -> int {
    (if primary_matches(e, p) {
        p.amount
    } else {
        0
    }) - (if offset_matches(e, p) {
        p.amount
    } else {
        0
    })
}

/// What one posting moves the first `n` entries by, in total.
pub open spec fn delta_total_upto(es: Seq<BalanceEntryV>, p: PostingV, n: int) -> int
    decreases n,
{
    if n <= 0 {
        0
    } else {
        delta_total_upto(es, p, n - 1) + entry_delta(es[n - 1], p)
    }
}

/// What the first `n` postings move the total of all entries by: for each
/// posting, its amount enters once per primary hit and leaves once per
/// offset hit.
pub open spec fn effect_upto(es: Seq<BalanceEntryV>, ps: Seq<PostingV>, n: int) -> int
    decreases n,
{
    if n <= 0 {
        0
    } else {
        effect_upto(es, ps, n - 1) + (count_primary(es, ps[n - 1]) - count_offset(es, ps[n - 1]))
            * ps[n - 1].amount
    }
}

/// What a whole posting sequence moves the total of all entries by.
pub open spec fn effect_total(es: Seq<BalanceEntryV>, ps: Seq<PostingV>) -> int {
    effect_upto(es, ps, ps.len() as int)
}

proof fn lemma_sum_apply_posting(es: Seq<BalanceEntryV>, p: PostingV, n: int)
    requires
        n <= es.len(),
    ensures
        sum_amounts_upto(apply_posting(es, p), n) == sum_amounts_upto(es, n) + delta_total_upto(
            es,
            p,
            n,
        ),
    decreases n,
{
    if n > 0 {
        lemma_sum_apply_posting(es, p, n - 1);
        assert(apply_posting(es, p)[n - 1] == apply_posting_entry(es[n - 1], p));
    }
}

proof fn lemma_delta_counts(es: Seq<BalanceEntryV>, p: PostingV, n: int)
    requires
        n <= es.len(),
    ensures
        delta_total_upto(es, p, n) == (count_primary_upto(es, p, n) - count_offset_upto(es, p, n))
            * p.amount,
    decreases n,
{
    if n <= 0 {
        assert(0 * p.amount == 0) by (nonlinear_arith);
    } else {
        lemma_delta_counts(es, p, n - 1);
        let cp = count_primary_upto(es, p, n - 1);
        let co = count_offset_upto(es, p, n - 1);
        let ip: int = if primary_matches(es[n - 1], p) {
            1
        } else {
            0
        };
        let io: int = if offset_matches(es[n - 1], p) {
            1
        } else {
            0
        };
        assert((cp + ip - (co + io)) * p.amount == (cp - co) * p.amount + (ip - io) * p.amount)
            by (nonlinear_arith);
        if primary_matches(es[n - 1], p) == offset_matches(es[n - 1], p) {
            assert(ip - io == 0);
            assert(0 * p.amount == 0) by (nonlinear_arith);
        } else if primary_matches(es[n - 1], p) {
            assert(ip - io == 1);
            assert(1 * p.amount == p.amount) by (nonlinear_arith);
        } else {
            assert(ip - io == -1);
            assert((-1) * p.amount == -p.amount) by (nonlinear_arith);
        }
        assert((ip - io) * p.amount == entry_delta(es[n - 1], p));
    }
}

proof fn lemma_counts_agree(a: Seq<BalanceEntryV>, b: Seq<BalanceEntryV>, p: PostingV, n: int)
    requires
        n <= a.len(),
        n <= b.len(),
        forall|m: int|
            0 <= m < n ==> (#[trigger] a[m]).account == b[m].account && a[m].account_type
                == b[m].account_type,
    ensures
        count_primary_upto(a, p, n) == count_primary_upto(b, p, n),
        count_offset_upto(a, p, n) == count_offset_upto(b, p, n),
    decreases n,
{
    if n > 0 {
        lemma_counts_agree(a, b, p, n - 1);
    }
}

/// The running total after the first `n` postings: the opening total plus
/// each posting's amount, weighted by how many primary hits minus how many
/// offset hits it had. The counts may be taken against the opening entries,
/// since folding postings never changes a name or a type.
pub proof fn lemma_sum_apply_postings(es: Seq<BalanceEntryV>, ps: Seq<PostingV>, n: int)
    requires
        0 <= n,
    ensures
        sum_amounts(apply_postings_upto(es, ps, n)) == sum_amounts(es) + effect_upto(es, ps, n),
    decreases n,
{
    if n > 0 {
        lemma_sum_apply_postings(es, ps, n - 1);
        let prev = apply_postings_upto(es, ps, n - 1);
        let p = ps[n - 1];
        lemma_apply_postings_upto_shape(es, ps, n - 1);
        lemma_sum_apply_posting(prev, p, prev.len() as int);
        lemma_delta_counts(prev, p, prev.len() as int);
        lemma_counts_agree(prev, es, p, es.len() as int);
    }
}

proof fn lemma_opening_seed(accounts: Seq<AccountV>, n: int)
    requires
        n <= accounts.len(),
    ensures
        sum_amounts_upto(seed_entries(accounts), n) == opening_total_upto(accounts, n),
    decreases n,
{
    if n > 0 {
        lemma_opening_seed(accounts, n - 1);
        assert(seed_entries(accounts)[n - 1] == seed_entry(accounts[n - 1]));
    }
}

/// Check-figure decomposition: the check figure is the opening total plus
/// the net effect of all postings on the opening entries.
pub proof fn check_figure_decomposition(f: LedgerFileV)
    ensures
        check_figure(f) == opening_total(f.accounts) + effect_total(
            seed_entries(f.accounts),
            postings_of(f.transactions),
        ),
{
    let es = seed_entries(f.accounts);
    let ps = postings_of(f.transactions);
    lemma_sum_apply_postings(es, ps, ps.len() as int);
    lemma_opening_seed(f.accounts, f.accounts.len() as int);
}

proof fn lemma_effect_fully_matched(es: Seq<BalanceEntryV>, ps: Seq<PostingV>, n: int)
    requires
        n <= ps.len(),
        forall|k: int|
            0 <= k < n ==> count_primary(es, #[trigger] ps[k]) == 1 && count_offset(es, ps[k])
                == 0,
    ensures
        effect_upto(es, ps, n) == posted_total_upto(ps, n),
    decreases n,
{
    if n > 0 {
        lemma_effect_fully_matched(es, ps, n - 1);
        assert(count_primary(es, ps[n - 1]) == 1);
        assert(count_offset(es, ps[n - 1]) == 0);
    }
}

proof fn lemma_effect_balanced(es: Seq<BalanceEntryV>, ps: Seq<PostingV>, n: int)
    requires
        n <= ps.len(),
        forall|k: int| 0 <= k < n ==> count_primary(es, #[trigger] ps[k]) == count_offset(es, ps[k]),
    ensures
        effect_upto(es, ps, n) == 0,
    decreases n,
{
    if n > 0 {
        lemma_effect_balanced(es, ps, n - 1);
        let c = count_primary(es, ps[n - 1]);
        assert((c - c) * ps[n - 1].amount == 0) by (nonlinear_arith);
    }
}

/// With no income-typed parent, the credit total of the legs is simply the
/// sum of the raw leg amounts.
pub proof fn lemma_credit_no_income(
    parent_type: Seq<char>,
    legs: Seq<TransactionListV>,
    n: int,
)
    requires
        parent_type != "income"@,
    ensures
        credit_total_upto(parent_type, legs, n) == legs_total_upto(legs, n),
    decreases n,
{
    if n > 0 {
        lemma_credit_no_income(parent_type, legs, n - 1);
    }
}

/// With an income-typed parent, the credit total is the negated sum of the
/// raw leg amounts.
pub proof fn lemma_credit_income(legs: Seq<TransactionListV>, n: int)
    ensures
        credit_total_upto("income"@, legs, n) == -legs_total_upto(legs, n),
    decreases n,
{
    if n > 0 {
        lemma_credit_income(legs, n - 1);
    }
}

/// The first `n` leg postings are exactly the legs' own postings, in order.
pub proof fn lemma_leg_postings_index(t: TransactionV, legs: Seq<TransactionListV>, n: int)
    requires
        n >= 0,
    ensures
        leg_postings_upto(t, legs, n).len() == n,
        forall|i: int|
            0 <= i < n ==> #[trigger] leg_postings_upto(t, legs, n)[i] == leg_posting(t, legs[i]),
    decreases n,
{
    if n > 0 {
        lemma_leg_postings_index(t, legs, n - 1);
    }
}

proof fn lemma_posted_total_upto_agree(a: Seq<PostingV>, b: Seq<PostingV>, n: int)
    requires
        forall|i: int| 0 <= i < n ==> a[i] == b[i],
    ensures
        posted_total_upto(a, n) == posted_total_upto(b, n),
    decreases n,
{
    if n > 0 {
        lemma_posted_total_upto_agree(a, b, n - 1);
    }
}

proof fn lemma_posted_leg_postings(t: TransactionV, legs: Seq<TransactionListV>, n: int)
    requires
        n >= 0,
    ensures
        posted_total_upto(leg_postings_upto(t, legs, n), n) == legs_total_upto(legs, n),
    decreases n,
{
    if n > 0 {
        lemma_posted_leg_postings(t, legs, n - 1);
        lemma_leg_postings_index(t, legs, n);
        let cur = leg_postings_upto(t, legs, n);
        let prev = leg_postings_upto(t, legs, n - 1);
        lemma_leg_postings_index(t, legs, n - 1);
        lemma_posted_total_upto_agree(cur, prev, n - 1);
        assert(cur[n - 1] == leg_posting(t, legs[n - 1]));
    }
}

/// A transaction that is not income-typed posts, in total, exactly its
/// stated amount: each leg posts its raw amount and the remainder posting
/// makes up the difference.
pub proof fn lemma_posted_transaction(t: TransactionV)
    requires
        t.account_type != "income"@,
    ensures
        posted_total(postings_of_transaction(t)) == t.amount,
{
    let ps = postings_of_transaction(t);
    match t.transaction {
        None => {
            assert(posted_total_upto(ps, 0) == 0);
            assert(ps[0] == simple_posting(t));
        },
        Some(legs) => {
            let n = legs.len() as int;
            let lp = leg_postings_upto(t, legs, n);
            lemma_leg_postings_index(t, legs, n);
            lemma_posted_leg_postings(t, legs, n);
            lemma_posted_total_upto_agree(ps, lp, n);
            assert(ps[n] == remainder_posting(t, legs));
            lemma_credit_no_income(t.account_type, legs, n);
        },
    }
}

proof fn lemma_posted_concat(a: Seq<PostingV>, b: Seq<PostingV>)
    ensures
        posted_total(a + b) == posted_total(a) + posted_total(b),
    decreases b.len(),
{
    let s = a + b;
    if b.len() == 0 {
        assert(s =~= a);
        assert(posted_total_upto(b, 0) == 0);
    } else {
        let b0 = b.drop_last();
        let s0 = a + b0;
        lemma_posted_concat(a, b0);
        let n = s.len() as int;
        lemma_posted_total_upto_agree(s, s0, n - 1);
        assert(s[n - 1] == b.last());
        lemma_posted_total_upto_agree(b, b0, b.len() - 1);
    }
}

/// Where no transaction is income-typed, the postings of the first `n`
/// transactions total exactly the stated transaction amounts.
pub proof fn lemma_posted_all(ts: Seq<TransactionV>, n: int)
    requires
        n <= ts.len(),
        forall|k: int| 0 <= k < n ==> (#[trigger] ts[k]).account_type != "income"@,
    ensures
        posted_total(postings_upto(ts, n)) == stated_total_upto(ts, n),
    decreases n,
{
    if n <= 0 {
        assert(posted_total_upto(postings_upto(ts, n), 0) == 0);
    } else {
        lemma_posted_all(ts, n - 1);
        lemma_posted_concat(postings_upto(ts, n - 1), postings_of_transaction(ts[n - 1]));
        lemma_posted_transaction(ts[n - 1]);
    }
}

/// Check-figure identity: in a ledger where no transaction is income-typed,
/// every posting's primary side hits exactly one opening entry and its
/// offset side hits none, the check figure is the opening total plus the
/// stated transaction total; where those sum to zero, the check figure is
/// zero. (With an income-typed transaction the posted amount is negated,
/// and with a matching offset account the posting is self-balancing, so the
/// identity does not hold of such ledgers.)
pub proof fn check_figure_identity(f: LedgerFileV)
    requires
        forall|k: int|
            0 <= k < postings_of(f.transactions).len() ==> count_primary(
                seed_entries(f.accounts),
                #[trigger] postings_of(f.transactions)[k],
            ) == 1 && count_offset(seed_entries(f.accounts), postings_of(f.transactions)[k]) == 0,
        forall|k: int|
            0 <= k < f.transactions.len() ==> (#[trigger] f.transactions[k]).account_type
                != "income"@,
        opening_total(f.accounts) + stated_total(f.transactions) == 0,
    ensures
        check_figure(f) == 0,
{
    let es = seed_entries(f.accounts);
    let ps = postings_of(f.transactions);
    check_figure_decomposition(f);
    lemma_effect_fully_matched(es, ps, ps.len() as int);
    lemma_posted_all(f.transactions, f.transactions.len() as int);
}

/// Conservation: where every posting hits as many primary entries as offset
/// entries (in particular, exactly one of each), folding the postings does
/// not move the total, so the check figure equals the opening total.
pub proof fn balanced_postings_conserve_total(f: LedgerFileV)
    requires
        forall|k: int|
            0 <= k < postings_of(f.transactions).len() ==> count_primary(
                seed_entries(f.accounts),
                #[trigger] postings_of(f.transactions)[k],
            ) == count_offset(seed_entries(f.accounts), postings_of(f.transactions)[k]),
    ensures
        check_figure(f) == opening_total(f.accounts),
{
    let es = seed_entries(f.accounts);
    let ps = postings_of(f.transactions);
    check_figure_decomposition(f);
    lemma_effect_balanced(es, ps, ps.len() as int);
}

/// Split conservation: for a split transaction, the credit total of the
/// legs plus the remainder posting's amount is exactly the stated amount.
pub proof fn split_conservation(t: TransactionV)
    requires
        t.transaction is Some,
    ensures
        credit_total(t.account_type, t.transaction->Some_0) + remainder_posting(
            t,
            t.transaction->Some_0,
        ).amount == t.amount,
{
}

/// Split conservation over raw amounts: with no income-typed parent, the
/// raw leg amounts plus the remainder equal the stated amount.
pub proof fn split_conservation_raw(t: TransactionV)
    requires
        t.transaction is Some,
        t.account_type != "income"@,
    ensures
        legs_total(t.transaction->Some_0) + remainder_posting(
            t,
            t.transaction->Some_0,
        ).amount == t.amount,
{
    let legs = t.transaction->Some_0;
    lemma_credit_no_income(t.account_type, legs, legs.len() as int);
}

/// Matching ignores ASCII case: an entry renamed to any case-equivalent
/// name is moved identically by every posting.
pub proof fn matching_ignores_case(e: BalanceEntryV, other: Seq<char>, p: PostingV)
    requires
        eq_ignore_case(e.account, other),
    ensures
        apply_posting_entry(
            BalanceEntryV { account: other, account_type: e.account_type, amount: e.amount },
            p,
        ).amount == apply_posting_entry(e, p).amount,
{
}

/// The primary side is type-sensitive, the offset side is not: a posting
/// whose account type differs from the entry's never moves the primary
/// side, while an offset name match moves the entry whatever the types.
pub proof fn type_sensitive_matching(e: BalanceEntryV, p: PostingV)
    requires
        e.account_type != p.account_type,
    ensures
        apply_posting_entry(e, p).amount == e.amount - (if offset_matches(e, p) {
            p.amount
        } else {
            0
        }),
{
}

/// Posting application order does not affect final balances: folding two
/// postings in either order moves every entry to the same amount, since
/// neither changes the names or types matching is decided by.
pub proof fn posting_order_commutes(es: Seq<BalanceEntryV>, p: PostingV, q: PostingV)
    ensures
        apply_posting(apply_posting(es, p), q) == apply_posting(apply_posting(es, q), p),
{
    let a = apply_posting(apply_posting(es, p), q);
    let b = apply_posting(apply_posting(es, q), p);
    assert forall|m: int| 0 <= m < es.len() implies a[m] == b[m] by {
        assert(apply_posting(es, p)[m] == apply_posting_entry(es[m], p));
        assert(apply_posting(es, q)[m] == apply_posting_entry(es[m], q));
        assert(a[m] == apply_posting_entry(apply_posting_entry(es[m], p), q));
        assert(b[m] == apply_posting_entry(apply_posting_entry(es[m], q), p));
    }
    assert(a =~= b);
}

/// The income sign rule: a simple income-typed transaction posts its amount
/// negated; the legs of an income-typed split transaction still post their
/// raw amounts, the sign entering only the credit total, which is the
/// negated leg total.
pub proof fn income_sign_rule(t: TransactionV)
    requires
        t.account_type == "income"@,
    ensures
        t.transaction is None ==> postings_of_transaction(t)[0].amount == -t.amount,
        t.transaction is Some ==> forall|i: int|
            0 <= i < t.transaction->Some_0.len() ==> #[trigger] postings_of_transaction(t)[i].amount
                == t.transaction->Some_0[i].amount,
        t.transaction is Some ==> credit_total(t.account_type, t.transaction->Some_0)
            == -legs_total(t.transaction->Some_0),
{
    match t.transaction {
        None => {
            assert(postings_of_transaction(t)[0] == simple_posting(t));
        },
        Some(legs) => {
            let n = legs.len() as int;
            lemma_leg_postings_index(t, legs, n);
            lemma_credit_income(legs, n);
            assert forall|i: int| 0 <= i < n implies #[trigger] postings_of_transaction(t)[i].amount
                == legs[i].amount by {
                assert(postings_of_transaction(t)[i] == leg_postings_upto(t, legs, n)[i]);
            }
        },
    }
}

} // verus!
