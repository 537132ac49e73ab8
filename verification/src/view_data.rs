//! What the dashboard shows, computed from the session: the visible
//! transaction list under the chosen sort, the running balance, and the
//! per-category expense totals behind the pie chart.
//!
//! Sorting and filtering never touch the cached transaction sequence; they
//! compute a fresh list from it.

use vstd::prelude::*;
use crate::transaction::{Transaction, TranKind};
use crate::state::SortType;

verus! {

/// Whether `a` may stay in front of `b` under the chosen direction:
/// descending keeps newer-or-equal dates first, ascending older-or-equal.
pub open spec fn keeps_before(desc: bool, a: Transaction, b: Transaction) -> bool {
    if desc {
        a.date >= b.date
    } else {
        a.date <= b.date
    }
}

/// Insert `x` behind every element it may not pass: the step of a stable
/// insertion sort.
pub open spec fn insert_by_date(desc: bool, s: Seq<Transaction>, x: Transaction) -> Seq<
    Transaction,
>
    decreases s.len(),
{
    if s.len() == 0 {
        seq![x]
    } else if keeps_before(desc, s[0], x) {
        seq![s[0]] + insert_by_date(desc, s.drop_first(), x)
    } else {
        seq![x] + s
    }
}

/// The stable sort of `s` by date: what `Vec::sort_by` with the same
/// comparator computes, elements with equal dates kept in their order.
pub open spec fn sort_by_date(desc: bool, s: Seq<Transaction>) -> Seq<Transaction>
    decreases s.len(),
{
    if s.len() == 0 {
        Seq::empty()
    } else {
        insert_by_date(desc, sort_by_date(desc, s.drop_last()), s.last())
    }
}

/// The transaction list as the dashboard shows it: sorted by date for the
/// two date orders, filtered by kind for the two filters, and never
/// anything else.
pub open spec fn visible(txs: Seq<Transaction>, sort: SortType) -> Seq<Transaction> {
    match sort {
        SortType::NewestFirst => sort_by_date(true, txs),
        SortType::OldestFirst => sort_by_date(false, txs),
        SortType::OnlyIncome => txs.filter(|t: Transaction| t.tran_type == TranKind::Income),
        SortType::OnlyExpense => txs.filter(|t: Transaction| t.tran_type == TranKind::Expense),
    }
}

proof fn lemma_insert_at(desc: bool, s: Seq<Transaction>, x: Transaction, j: int)
    requires
        0 <= j <= s.len(),
        forall|k: int| 0 <= k < j ==> keeps_before(desc, s[k], x),
        j < s.len() ==> !keeps_before(desc, s[j], x),
    ensures
        insert_by_date(desc, s, x) == s.take(j) + seq![x] + s.skip(j),
    decreases j,
{
    if j == 0 {
        if s.len() == 0 {
            assert(insert_by_date(desc, s, x) =~= s.take(0) + seq![x] + s.skip(0));
        } else {
            assert(insert_by_date(desc, s, x) =~= s.take(0) + seq![x] + s.skip(0));
        }
    } else {
        let t = s.drop_first();
        assert(keeps_before(desc, s[0], x));
        assert forall|k: int| 0 <= k < j - 1 implies keeps_before(desc, t[k], x) by {
            assert(t[k] == s[k + 1]);
        }
        if j - 1 < t.len() {
            assert(t[j - 1] == s[j]);
        }
        lemma_insert_at(desc, t, x, j - 1);
        assert(seq![s[0]] + (t.take(j - 1) + seq![x] + t.skip(j - 1)) =~= s.take(j) + seq![x]
            + s.skip(j));
    }
}

/// Insert one transaction into an already built list, in front of the
/// first element it may pass.
fn insert_transaction(out: &mut Vec<Transaction>, x: Transaction, desc: bool)
    ensures
        final(out)@ == insert_by_date(desc, old(out)@, x),
{
    let n = out.len();
    let mut j: usize = 0;
    let mut stop = false;
    while j < n && !stop
        invariant
            j <= n,
            n == out@.len(),
            *out == *old(out),
            forall|k: int| 0 <= k < j ==> keeps_before(desc, out@[k], x),
            stop ==> j < n && !keeps_before(desc, out@[j as int], x),
        decreases n - j + (if stop { 0int } else { 1int }),
    {
        let keep = if desc {
            out[j].date >= x.date
        } else {
            out[j].date <= x.date
        };
        if keep {
            j = j + 1;
        } else {
            stop = true;
        }
    }
    proof {
        lemma_insert_at(desc, out@, x, j as int);
    }
    out.insert(j, x);
    proof {
        assert(old(out)@.insert(j as int, x) =~= old(out)@.take(j as int) + seq![x] + old(
            out,
        )@.skip(j as int));
    }
}

pub(crate) fn sorted_by_date(txs: &Vec<Transaction>, desc: bool) -> (r: Vec<Transaction>)
    ensures
        r@ == sort_by_date(desc, txs@),
{
    let n = txs.len();
    let mut out: Vec<Transaction> = Vec::new();
    let mut i: usize = 0;
    while i < n
        invariant
            i <= n,
            n == txs@.len(),
            out@ == sort_by_date(desc, txs@.take(i as int)),
        decreases n - i,
    {
        let x = txs[i].clone();
        insert_transaction(&mut out, x, desc);
        proof {
            assert(txs@.take(i + 1).drop_last() =~= txs@.take(i as int));
            assert(txs@.take(i + 1).last() == txs@[i as int]);
        }
        i = i + 1;
    }
    proof {
        assert(txs@.take(n as int) =~= txs@);
    }
    out
}

fn filtered_by_kind(txs: &Vec<Transaction>, kind: TranKind) -> (r: Vec<Transaction>)
    ensures
        r@ == txs@.filter(|t: Transaction| t.tran_type == kind),
{
    let n = txs.len();
    let mut out: Vec<Transaction> = Vec::new();
    let mut i: usize = 0;
    proof {
        reveal(Seq::filter);
        assert(txs@.take(0).filter(|t: Transaction| t.tran_type == kind) =~= Seq::empty());
    }
    while i < n
        invariant
            i <= n,
            n == txs@.len(),
            out@ == txs@.take(i as int).filter(|t: Transaction| t.tran_type == kind),
        decreases n - i,
    {
        proof {
            reveal(Seq::filter);
            assert(txs@.take(i + 1).drop_last() =~= txs@.take(i as int));
            assert(txs@.take(i + 1).last() == txs@[i as int]);
        }
        let matches_kind = match (&txs[i].tran_type, &kind) {
            (TranKind::Income, TranKind::Income) => true,
            (TranKind::Expense, TranKind::Expense) => true,
            _ => false,
        };
        if matches_kind {
            out.push(txs[i].clone());
        }
        i = i + 1;
    }
    proof {
        assert(txs@.take(n as int) =~= txs@);
    }
    out
}

/// The transaction list the dashboard shows under the chosen sort. The
/// cached list itself is read, never changed.
pub fn visible_transactions(txs: &Vec<Transaction>, sort: &SortType) -> (r: Vec<Transaction>)
    ensures
        r@ == visible(txs@, *sort),
{
    match sort {
        SortType::NewestFirst => sorted_by_date(txs, true),
        SortType::OldestFirst => sorted_by_date(txs, false),
        SortType::OnlyIncome => filtered_by_kind(txs, TranKind::Income),
        SortType::OnlyExpense => filtered_by_kind(txs, TranKind::Expense),
    }
}

/// Every adjacent (and so every ordered) pair of `s` respects the chosen
/// date direction.
pub open spec fn sorted_run(desc: bool, s: Seq<Transaction>) -> bool {
    forall|a: int, b: int| 0 <= a < b < s.len() ==> keeps_before(desc, s[a], s[b])
}

proof fn lemma_insert_by_date_props(desc: bool, s: Seq<Transaction>, x: Transaction)
    requires
        sorted_run(desc, s),
    ensures
        sorted_run(desc, insert_by_date(desc, s, x)),
        insert_by_date(desc, s, x).to_multiset() == s.to_multiset().insert(x),
        forall|m: int|
            0 <= m < insert_by_date(desc, s, x).len() ==> (insert_by_date(desc, s, x)[m] == x
                || s.contains(insert_by_date(desc, s, x)[m])),
    decreases s.len(),
{
    broadcast use vstd::seq_lib::group_to_multiset_ensures;

    let r = insert_by_date(desc, s, x);
    if s.len() == 0 {
        assert(seq![x] =~= Seq::<Transaction>::empty().push(x));
    } else if keeps_before(desc, s[0], x) {
        let t = s.drop_first();
        assert forall|a: int, b: int| 0 <= a < b < t.len() implies keeps_before(
            desc,
            t[a],
            t[b],
        ) by {
            assert(t[a] == s[a + 1] && t[b] == s[b + 1]);
        }
        lemma_insert_by_date_props(desc, t, x);
        let rt = insert_by_date(desc, t, x);
        assert(r =~= seq![s[0]] + rt);
        assert forall|a: int, b: int| 0 <= a < b < r.len() implies keeps_before(
            desc,
            r[a],
            r[b],
        ) by {
            if a == 0 {
                assert(r[b] == rt[b - 1]);
                if rt[b - 1] == x {
                } else {
                    let k = choose|k: int| 0 <= k < t.len() && t[k] == rt[b - 1];
                    assert(t[k] == s[k + 1]);
                    assert(keeps_before(desc, s[0], s[k + 1]));
                }
            } else {
                assert(r[a] == rt[a - 1] && r[b] == rt[b - 1]);
            }
        }
        assert(seq![s[0]] + rt =~= rt.insert(0, s[0]));
        vstd::seq_lib::to_multiset_insert(rt, 0, s[0]);
        assert(s =~= t.insert(0, s[0]));
        vstd::seq_lib::to_multiset_insert(t, 0, s[0]);
        assert(r.to_multiset() =~= s.to_multiset().insert(x));
        assert forall|m: int| 0 <= m < r.len() implies (r[m] == x || s.contains(r[m])) by {
            if m > 0 && rt[m - 1] != x {
                let k = choose|k: int| 0 <= k < t.len() && t[k] == rt[m - 1];
                assert(s[k + 1] == r[m]);
            }
        }
    } else {
        assert(r =~= s.insert(0, x));
        vstd::seq_lib::to_multiset_insert(s, 0, x);
        assert forall|a: int, b: int| 0 <= a < b < r.len() implies keeps_before(
            desc,
            r[a],
            r[b],
        ) by {
            if a == 0 && b > 0 {
                assert(r[b] == s[b - 1]);
                if b > 1 {
                    assert(keeps_before(desc, s[0], s[b - 1]));
                }
            } else {
                assert(r[a] == s[a - 1] && r[b] == s[b - 1]);
            }
        }
        assert forall|m: int| 0 <= m < r.len() implies (r[m] == x || s.contains(r[m])) by {
            if m > 0 {
                assert(r[m] == s[m - 1]);
            }
        }
    }
}

/// The date sorts order the list by date — newer first or older first —
/// and the result is a permutation of the input: nothing appears or goes
/// missing under a sort selection.
pub proof fn lemma_sort_by_date_sorts(desc: bool, s: Seq<Transaction>)
    ensures
        sorted_run(desc, sort_by_date(desc, s)),
        sort_by_date(desc, s).to_multiset() == s.to_multiset(),
    decreases s.len(),
{
    broadcast use vstd::seq_lib::group_to_multiset_ensures;

    if s.len() == 0 {
    } else {
        lemma_sort_by_date_sorts(desc, s.drop_last());
        lemma_insert_by_date_props(desc, sort_by_date(desc, s.drop_last()), s.last());
        assert(s =~= s.drop_last().push(s.last()));
    }
}

/// What one transaction adds to the balance: its amount, negative for an
/// expense.
pub open spec fn signed_cents(t: Transaction) -> int {
    if t.tran_type == TranKind::Expense {
        -(t.tran_amount as int)
    } else {
        t.tran_amount as int
    }
}

/// The balance of a transaction sequence, in cents: incomes minus
/// expenses.
pub open spec fn balance_of(s: Seq<Transaction>) -> int
    decreases s.len(),
{
    if s.len() == 0 {
        0
    } else {
        balance_of(s.drop_last()) + signed_cents(s.last())
    }
}

/// The balance the dashboard's top bar shows, in cents.
pub fn balance_cents(txs: &Vec<Transaction>) -> (r: i128)
    requires
        txs@.len() <= 0x7fff_ffff_ffff_ffff,
    ensures
        r == balance_of(txs@),
{
    let n = txs.len();
    let mut acc: i128 = 0;
    let mut i: usize = 0;
    while i < n
        invariant
            i <= n,
            n == txs@.len(),
            n <= 0x7fff_ffff_ffff_ffff,
            acc == balance_of(txs@.take(i as int)),
            -(i * 0xffff_ffff_ffff_ffff) <= acc <= i * 0xffff_ffff_ffff_ffff,
        decreases n - i,
    {
        proof {
            assert(txs@.take(i + 1).drop_last() =~= txs@.take(i as int));
            assert(txs@.take(i + 1).last() == txs@[i as int]);
            assert((i + 1) * 0xffff_ffff_ffff_ffff == i * 0xffff_ffff_ffff_ffff
                + 0xffff_ffff_ffff_ffff) by (nonlinear_arith);
            assert(i * 0xffff_ffff_ffff_ffff <= 0x7fff_ffff_ffff_ffff * 0xffff_ffff_ffff_ffff)
                by (nonlinear_arith)
                requires i <= 0x7fff_ffff_ffff_ffff;
        }
        let delta = txs[i].tran_amount as i128;
        let is_expense = match &txs[i].tran_type {
            TranKind::Expense => true,
            TranKind::Income => false,
        };
        if is_expense {
            acc = acc - delta;
        } else {
            acc = acc + delta;
        }
        i = i + 1;
    }
    proof {
        assert(txs@.take(n as int) =~= txs@);
    }
    acc
}

/// The expense cents booked under category id `tag` in `s`.
pub open spec fn cat_total(s: Seq<Transaction>, tag: i32) -> int
    decreases s.len(),
{
    if s.len() == 0 {
        0
    } else {
        cat_total(s.drop_last(), tag) + (if s.last().tran_type == TranKind::Expense
            && s.last().tag_id == Some(tag) {
            s.last().tran_amount as int
        } else {
            0
        })
    }
}

/// The pie chart's input: for each of the `n_categories` loaded categories,
/// in order, the expense total booked under its 1-based id.
pub fn expense_totals(txs: &Vec<Transaction>, n_categories: usize) -> (r: Vec<u128>)
    requires
        n_categories <= 0x7fff_ffff,
    ensures
        r@.len() == n_categories,
        forall|j: int| 0 <= j < n_categories ==> r@[j] == cat_total(txs@, ((j + 1) as usize) as i32),
{
    let mut totals: Vec<u128> = Vec::new();
    let mut j: usize = 0;
    while j < n_categories
        invariant
            j <= n_categories,
            totals@.len() == j,
            forall|k: int| 0 <= k < j ==> totals@[k] == 0,
        decreases n_categories - j,
    {
        totals.push(0);
        j = j + 1;
    }
    let n = txs.len();
    let mut i: usize = 0;
    proof {
        assert forall|k: int| 0 <= k < n_categories implies totals@[k] == cat_total(
            txs@.take(0),
            ((k + 1) as usize) as i32,
        ) by {
            assert(txs@.take(0) =~= Seq::<Transaction>::empty());
        }
    }
    while i < n
        invariant
            i <= n,
            n == txs@.len(),
            n_categories <= 0x7fff_ffff,
            totals@.len() == n_categories,
            forall|k: int| 0 <= k < n_categories ==> totals@[k] == cat_total(
                txs@.take(i as int),
                ((k + 1) as usize) as i32,
            ),
            forall|k: int| 0 <= k < n_categories ==> totals@[k] <= i * 0xffff_ffff_ffff_ffff,
        decreases n - i,
    {
        proof {
            assert(txs@.take(i + 1).drop_last() =~= txs@.take(i as int));
            assert(txs@.take(i + 1).last() == txs@[i as int]);
            assert((i + 1) * 0xffff_ffff_ffff_ffff == i * 0xffff_ffff_ffff_ffff
                + 0xffff_ffff_ffff_ffff) by (nonlinear_arith);
            assert(i * 0xffff_ffff_ffff_ffff <= 0xffff_ffff_ffff_ffff * 0xffff_ffff_ffff_ffff)
                by (nonlinear_arith)
                requires i <= 0xffff_ffff_ffff_ffff;
        }
        let is_expense = match &txs[i].tran_type {
            TranKind::Expense => true,
            TranKind::Income => false,
        };
        if is_expense {
            match txs[i].tag_id {
                Some(tag) => {
                    if 1 <= tag && tag as usize <= n_categories {
                        let idx = (tag as usize) - 1;
                        let prev = totals[idx];
                        totals.set(idx, prev + txs[i].tran_amount as u128);
                    }
                },
                None => {},
            }
        }
        proof {
            let pre = txs@.take(i as int);
            let cur = txs@.take(i + 1);
            assert forall|k: int| 0 <= k < n_categories implies totals@[k] == cat_total(
                cur,
                ((k + 1) as usize) as i32,
            ) by {
                assert(cur.drop_last() =~= pre);
            }
        }
        i = i + 1;
    }
    proof {
        assert(txs@.take(n as int) =~= txs@);
    }
    totals
}

} // verus!
