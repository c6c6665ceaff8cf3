//! Posting expansion: every transaction becomes one or more signed postings.
//!
//! A simple transaction yields one posting whose amount has the sign
//! convention applied: amounts of transactions typed `"income"` are negated,
//! all other types post as given. A split transaction yields one posting per
//! leg carrying the leg's raw amount (the sign convention enters only the
//! credit total), followed by a remainder posting for the stated total minus
//! the credit total, so the split always reconciles against the parent.

use vstd::math::abs;
use vstd::prelude::*;

use crate::models::{
    Posting, PostingV, Transaction, TransactionList, TransactionListV, TransactionV,
    posting_views, transaction_views,
};
use crate::text::is_income;

verus! {

/// The sign convention: amounts of `"income"`-typed flows are stored
/// negated, every other type keeps its amount.
pub open spec fn sign_amount(account_type: Seq<char>, amount: int) -> int {
    if account_type == "income"@ {
        -amount
    } else {
        amount
    }
}

/// The type a leg posts under: its own tag if present, else the parent
/// transaction's.
pub open spec fn leg_type(leg: TransactionListV, parent_type: Seq<char>) -> Seq<char> {
    match leg.account_type {
        Some(t) => t,
        None => parent_type,
    }
}

/// The posting a leg of a split transaction produces: the raw leg amount,
/// under the leg's type, against the parent's offset account.
pub open spec fn leg_posting(t: TransactionV, leg: TransactionListV) -> PostingV {
    PostingV {
        account: leg.account,
        account_type: leg_type(leg, t.account_type),
        offset_account: t.offset_account,
        amount: leg.amount,
    }
}

/// The credit total over the first `n` legs: sign-adjusted leg amounts,
/// where the sign test uses the parent transaction's type, not the leg's.
pub open spec fn credit_total_upto(
    parent_type: Seq<char>,
    legs: Seq<TransactionListV>,
    n: int,
) -> int
    decreases n,
{
    if n <= 0 {
        0
    } else {
        credit_total_upto(parent_type, legs, n - 1) + sign_amount(parent_type, legs[n - 1].amount)
    }
}

/// The credit total over all legs of a split transaction.
pub open spec fn credit_total(parent_type: Seq<char>, legs: Seq<TransactionListV>) -> int {
    credit_total_upto(parent_type, legs, legs.len() as int)
}

/// The final posting of a split transaction: the stated total minus the
/// credit total, against the parent's own account.
pub open spec fn remainder_posting(t: TransactionV, legs: Seq<TransactionListV>) -> PostingV {
    PostingV {
        account: t.account,
        account_type: t.account_type,
        offset_account: t.offset_account,
        amount: t.amount - credit_total(t.account_type, legs),
    }
}

/// The single posting of a simple transaction, sign convention applied.
pub open spec fn simple_posting(t: TransactionV) -> PostingV {
    PostingV {
        account: t.account,
        account_type: t.account_type,
        offset_account: t.offset_account,
        amount: sign_amount(t.account_type, t.amount),
    }
}

/// The postings of the first `n` legs, in leg order.
pub open spec fn leg_postings_upto(
    t: TransactionV,
    legs: Seq<TransactionListV>,
    n: int,
) -> Seq<PostingV>
    decreases n,
{
    if n <= 0 {
        Seq::empty()
    } else {
        leg_postings_upto(t, legs, n - 1).push(leg_posting(t, legs[n - 1]))
    }
}

/// All postings of one transaction: the simple posting, or the leg postings
/// in order followed by the remainder posting.
pub open spec fn postings_of_transaction(t: TransactionV) -> Seq<PostingV> {
    match t.transaction {
        None => seq![simple_posting(t)],
        Some(legs) => leg_postings_upto(t, legs, legs.len() as int).push(
            remainder_posting(t, legs),
        ),
    }
}

/// The postings of the first `n` transactions, concatenated in input order.
pub open spec fn postings_upto(ts: Seq<TransactionV>, n: int) -> Seq<PostingV>
    decreases n,
{
    if n <= 0 {
        Seq::empty()
    } else {
        postings_upto(ts, n - 1) + postings_of_transaction(ts[n - 1])
    }
}

/// The postings of a whole transaction sequence, in input order.
pub open spec fn postings_of(ts: Seq<TransactionV>) -> Seq<PostingV> {
    postings_upto(ts, ts.len() as int)
}

/// Sum of the absolute amounts of the first `n` legs.
pub open spec fn legs_weight_upto(legs: Seq<TransactionListV>, n: int) -> int
    decreases n,
{
    if n <= 0 {
        0
    } else {
        legs_weight_upto(legs, n - 1) + abs(legs[n - 1].amount)
    }
}

/// Sum of the absolute amounts of all legs.
pub open spec fn legs_weight(legs: Seq<TransactionListV>) -> int {
    legs_weight_upto(legs, legs.len() as int)
}

/// The magnitude of one transaction: the absolute stated amount plus the
/// absolute leg amounts. Every intermediate value of posting expansion is
/// bounded by it.
pub open spec fn txn_weight(t: TransactionV) -> int {
    abs(t.amount) + match t.transaction {
        Some(legs) => legs_weight(legs),
        None => 0,
    }
}

/// The combined magnitude of the first `n` transactions.
pub open spec fn txns_weight_upto(ts: Seq<TransactionV>, n: int) -> int
    decreases n,
{
    if n <= 0 {
        0
    } else {
        txns_weight_upto(ts, n - 1) + txn_weight(ts[n - 1])
    }
}

/// The combined magnitude of a whole transaction sequence.
pub open spec fn txns_weight(ts: Seq<TransactionV>) -> int {
    txns_weight_upto(ts, ts.len() as int)
}

/// Sum of the absolute amounts of the first `n` postings.
pub open spec fn postings_weight_upto(ps: Seq<PostingV>, n: int) -> int
    decreases n,
{
    if n <= 0 {
        0
    } else {
        postings_weight_upto(ps, n - 1) + abs(ps[n - 1].amount)
    }
}

/// Sum of the absolute amounts of a whole posting sequence.
pub open spec fn postings_weight(ps: Seq<PostingV>) -> int {
    postings_weight_upto(ps, ps.len() as int)
}

pub proof fn lemma_legs_weight_upto_monotone(legs: Seq<TransactionListV>, m: int, n: int)
    requires
        m <= n,
    ensures
        legs_weight_upto(legs, m) <= legs_weight_upto(legs, n),
    decreases n - m,
{
    if m < n {
        lemma_legs_weight_upto_monotone(legs, m, n - 1);
    }
}

pub proof fn lemma_credit_total_upto_bound(
    parent_type: Seq<char>,
    legs: Seq<TransactionListV>,
    n: int,
)
    ensures
        abs(credit_total_upto(parent_type, legs, n)) <= legs_weight_upto(legs, n),
    decreases n,
{
    if n > 0 {
        lemma_credit_total_upto_bound(parent_type, legs, n - 1);
    }
}

pub proof fn lemma_txns_weight_upto_monotone(ts: Seq<TransactionV>, m: int, n: int)
    requires
        m <= n,
    ensures
        txns_weight_upto(ts, m) <= txns_weight_upto(ts, n),
    decreases n - m,
{
    if m < n {
        lemma_txns_weight_upto_monotone(ts, m, n - 1);
        lemma_txn_weight_nonneg(ts[n - 1]);
    }
}

pub proof fn lemma_txn_weight_nonneg(t: TransactionV)
    ensures
        txn_weight(t) >= 0,
{
    match t.transaction {
        Some(legs) => lemma_legs_weight_upto_monotone(legs, 0, legs.len() as int),
        None => (),
    }
}

/// The magnitude of one transaction is at most the magnitude of any
/// sequence it stands in.
pub proof fn lemma_txn_weight_le(ts: Seq<TransactionV>, i: int)
    requires
        0 <= i < ts.len(),
    ensures
        txn_weight(ts[i]) <= txns_weight(ts),
{
    lemma_txns_weight_upto_monotone(ts, 0, i);
    lemma_txns_weight_upto_monotone(ts, i + 1, ts.len() as int);
}

pub proof fn lemma_postings_weight_upto_monotone(ps: Seq<PostingV>, m: int, n: int)
    requires
        m <= n,
    ensures
        postings_weight_upto(ps, m) <= postings_weight_upto(ps, n),
    decreases n - m,
{
    if m < n {
        lemma_postings_weight_upto_monotone(ps, m, n - 1);
    }
}

/// The absolute amount of one posting is at most the weight of any
/// sequence it stands in.
pub proof fn lemma_posting_abs_le(ps: Seq<PostingV>, i: int)
    requires
        0 <= i < ps.len(),
    ensures
        abs(ps[i].amount) <= postings_weight(ps),
{
    lemma_postings_weight_upto_monotone(ps, 0, i);
    lemma_postings_weight_upto_monotone(ps, i + 1, ps.len() as int);
}

/// Two posting sequences that agree on their first `n` elements have the
/// same weight up to `n`.
pub proof fn lemma_postings_weight_upto_agree(a: Seq<PostingV>, b: Seq<PostingV>, n: int)
    requires
        forall|i: int| 0 <= i < n ==> a[i] == b[i],
    ensures
        postings_weight_upto(a, n) == postings_weight_upto(b, n),
    decreases n,
{
    if n > 0 {
        lemma_postings_weight_upto_agree(a, b, n - 1);
    }
}

pub proof fn lemma_postings_weight_concat(a: Seq<PostingV>, b: Seq<PostingV>)
    ensures
        postings_weight(a + b) == postings_weight(a) + postings_weight(b),
    decreases b.len(),
{
    let s = a + b;
    if b.len() == 0 {
        assert(s =~= a);
        assert(postings_weight_upto(b, 0) == 0);
    } else {
        let b0 = b.drop_last();
        let s0 = a + b0;
        lemma_postings_weight_concat(a, b0);
        let n = s.len() as int;
        lemma_postings_weight_upto_agree(s, s0, n - 1);
        assert(s[n - 1] == b.last());
        lemma_postings_weight_upto_agree(b, b0, b.len() - 1);
    }
}

/// The postings of one transaction weigh at most twice the transaction:
/// each leg posts its amount once and enters the credit total once, and the
/// remainder is bounded by the stated total plus the credit total.
pub proof fn lemma_postings_weight_of_transaction(t: TransactionV)
    ensures
        postings_weight(postings_of_transaction(t)) <= 2 * txn_weight(t),
{
    match t.transaction {
        None => {
            let ps = postings_of_transaction(t);
            assert(postings_weight_upto(ps, 0) == 0);
            assert(ps[0] == simple_posting(t));
        },
        Some(legs) => {
            let n = legs.len() as int;
            let lp = leg_postings_upto(t, legs, n);
            let rem = remainder_posting(t, legs);
            let ps = postings_of_transaction(t);
            lemma_leg_postings_weight(t, legs, n);
            lemma_credit_total_upto_bound(t.account_type, legs, n);
            assert(ps[n] == rem);
            lemma_weight_upto_push_agree(lp, rem, n);
        },
    }
}

proof fn lemma_leg_postings_weight(t: TransactionV, legs: Seq<TransactionListV>, n: int)
    requires
        n >= 0,
    ensures
        postings_weight_upto(leg_postings_upto(t, legs, n), n) == legs_weight_upto(legs, n),
        leg_postings_upto(t, legs, n).len() == n,
    decreases n,
{
    if n > 0 {
        lemma_leg_postings_weight(t, legs, n - 1);
        let cur = leg_postings_upto(t, legs, n);
        let prev = leg_postings_upto(t, legs, n - 1);
        assert(cur[n - 1] == leg_posting(t, legs[n - 1]));
        lemma_weight_upto_push_agree(prev, leg_posting(t, legs[n - 1]), n - 1);
        lemma_postings_weight_upto_agree(cur, prev.push(leg_posting(t, legs[n - 1])), n - 1);
    }
}

proof fn lemma_weight_upto_push_agree(s: Seq<PostingV>, p: PostingV, n: int)
    requires
        n <= s.len(),
    ensures
        postings_weight_upto(s.push(p), n) == postings_weight_upto(s, n),
    decreases n,
{
    if n > 0 {
        lemma_weight_upto_push_agree(s, p, n - 1);
    }
}

/// All postings of a transaction sequence weigh at most twice the sequence.
pub proof fn lemma_postings_weight_of(ts: Seq<TransactionV>, n: int)
    ensures
        postings_weight(postings_upto(ts, n)) <= 2 * txns_weight_upto(ts, n),
    decreases n,
{
    if n <= 0 {
    } else {
        lemma_postings_weight_of(ts, n - 1);
        lemma_postings_weight_concat(postings_upto(ts, n - 1), postings_of_transaction(ts[n - 1]));
        lemma_postings_weight_of_transaction(ts[n - 1]);
    }
}

/// Applies the sign convention: negates the amount for `"income"`-typed
/// flows, passes every other amount through.
pub fn sign_convention(account_type: &String, amount: i64) -> (r: i64)
    requires
        amount > i64::MIN,
    ensures
        r as int == sign_amount(account_type@, amount as int),
{
    if is_income(account_type) {
        -amount
    } else {
        amount
    }
}

/// Expands one transaction into its postings, in order: the single
/// sign-adjusted posting of a simple transaction, or the raw leg postings
/// followed by the remainder posting of a split one.
pub fn expand_transaction(t: &Transaction) -> (r: Vec<Posting>)
    requires
        txn_weight(t@) <= i64::MAX as int,
    ensures
        posting_views(r@) == postings_of_transaction(t@),
{
    let mut out: Vec<Posting> = Vec::new();
    match &t.transaction {
        None => {
            let amount = sign_convention(&t.account_type, t.amount);
            out.push(
                Posting {
                    account: t.account.clone(),
                    account_type: t.account_type.clone(),
                    offset_account: t.offset_account.clone(),
                    amount,
                },
            );
            proof {
                assert(posting_views(out@) =~= postings_of_transaction(t@));
            }
        },
        Some(legs) => {
            let ghost lv = legs@.map_values(|l: TransactionList| l@);
            let ghost ptype = t@.account_type;
            let mut credit: i64 = 0;
            let mut i: usize = 0;
            while i < legs.len()
                invariant
                    i <= legs.len(),
                    lv == legs@.map_values(|l: TransactionList| l@),
                    t@.transaction == Some(lv),
                    ptype == t@.account_type,
                    txn_weight(t@) <= i64::MAX as int,
                    credit as int == credit_total_upto(ptype, lv, i as int),
                    posting_views(out@) == leg_postings_upto(t@, lv, i as int),
                decreases legs.len() - i,
            {
                proof {
                    lemma_legs_weight_upto_monotone(lv, i + 1, lv.len() as int);
                    lemma_legs_weight_upto_monotone(lv, 0, i as int);
                    lemma_credit_total_upto_bound(ptype, lv, i as int);
                    assert(abs(lv[i as int].amount) + legs_weight_upto(lv, i as int)
                        == legs_weight_upto(lv, i + 1));
                }
                let leg = &legs[i];
                let signed = sign_convention(&t.account_type, leg.amount);
                credit = credit + signed;
                let account_type = match &leg.account_type {
                    Some(tag) => tag.clone(),
                    None => t.account_type.clone(),
                };
                out.push(
                    Posting {
                        account: leg.account.clone(),
                        account_type,
                        offset_account: t.offset_account.clone(),
                        amount: leg.amount,
                    },
                );
                proof {
                    assert(posting_views(out@) =~= leg_postings_upto(t@, lv, i + 1));
                }
                i += 1;
            }
            proof {
                lemma_credit_total_upto_bound(ptype, lv, lv.len() as int);
            }
            out.push(
                Posting {
                    account: t.account.clone(),
                    account_type: t.account_type.clone(),
                    offset_account: t.offset_account.clone(),
                    amount: t.amount - credit,
                },
            );
            proof {
                assert(posting_views(out@) =~= postings_of_transaction(t@));
            }
        },
    }
    out
}

/// Expands a whole transaction sequence, concatenating each transaction's
/// postings in input order.
pub fn expand_transactions(transactions: &Vec<Transaction>) -> (r: Vec<Posting>)
    requires
        txns_weight(transaction_views(transactions@)) <= i64::MAX as int,
    ensures
        posting_views(r@) == postings_of(transaction_views(transactions@)),
{
    let ghost tv = transaction_views(transactions@);
    let mut out: Vec<Posting> = Vec::new();
    let mut i: usize = 0;
    while i < transactions.len()
        invariant
            i <= transactions.len(),
            tv == transaction_views(transactions@),
            txns_weight(tv) <= i64::MAX as int,
            posting_views(out@) == postings_upto(tv, i as int),
        decreases transactions.len() - i,
    {
        proof {
            lemma_txn_weight_le(tv, i as int);
            lemma_txn_weight_nonneg(tv[i as int]);
        }
        let mut chunk = expand_transaction(&transactions[i]);
        let ghost chunk_v = posting_views(chunk@);
        out.append(&mut chunk);
        proof {
            assert(posting_views(out@) =~= postings_upto(tv, i as int) + chunk_v);
        }
        i += 1;
    }
    out
}

} // verus!
