//! Ledger reports: the trial balance (turnovers and balances by account over
//! a range of periods), the journal window and the account card with its
//! running balance.
//!
//! The store hands over the rows a report reads; everything computed from
//! them is here.

use vstd::prelude::*;
use crate::ledger::{AccountType, spec_balance_sign, account_type_code, natural_opening, text_le, text_le_exec, lemma_text_le_total, lemma_text_le_trans};
use crate::text::{str_eq, owned};
use crate::ledger::LedgerEntry;
use crate::json::{JsonValue, JsonNumber};

verus! {

broadcast use vstd::seq_lib::group_to_multiset_ensures;

// ───────────────────────── trial balance ─────────────────────────

/// A stored turnover row of one account in one period.
pub struct BalanceRow {
    pub account_id: String,
    pub account_code: String,
    /// `"YYYY-MM"`
    pub period_key: String,
    pub opening_balance: i64,
    pub debit_turnover: i64,
    pub credit_turnover: i64,
}

/// The totals of one account over the rows of a report.
pub struct AccountTotals {
    pub account_id: String,
    pub code: String,
    /// The opening balance of the account's earliest period in the report
    /// (each stored opening is already cumulative).
    pub opening: i64,
    /// That earliest period.
    pub opening_period: String,
    pub debit: i64,
    pub credit: i64,
}

/// Field `f` of a row: 0 the opening balance, 1 the debit turnover, 2 the
/// credit turnover.
pub open spec fn row_amount(r: BalanceRow, f: int) -> int {
    if f == 0 {
        r.opening_balance as int
    } else if f == 1 {
        r.debit_turnover as int
    } else {
        r.credit_turnover as int
    }
}

/// The sum of field `f` over the rows of account `id`.
pub open spec fn account_sum(rows: Seq<BalanceRow>, id: Seq<char>, f: int) -> int
    decreases rows.len(),
{
    if rows.len() == 0 {
        0
    } else {
        account_sum(rows.drop_last(), id, f) + if rows.last().account_id@ == id {
            row_amount(rows.last(), f)
        } else {
            0
        }
    }
}

/// The index of the first row of account `id`, if any.
pub open spec fn first_row(rows: Seq<BalanceRow>, id: Seq<char>) -> Option<int>
    decreases rows.len(),
{
    if rows.len() == 0 {
        None
    } else {
        match first_row(rows.drop_last(), id) {
            Some(i) => Some(i),
            None => if rows.last().account_id@ == id {
                Some(rows.len() - 1)
            } else {
                None
            },
        }
    }
}

/// The index of the row of account `id` with the earliest period (the first
/// such row when periods repeat), if any.
pub open spec fn earliest_row(rows: Seq<BalanceRow>, id: Seq<char>) -> Option<int>
    decreases rows.len(),
{
    if rows.len() == 0 {
        None
    } else {
        match earliest_row(rows.drop_last(), id) {
            Some(p) => if rows.last().account_id@ == id && !text_le(rows[p].period_key@, rows.last().period_key@) {
                Some(rows.len() - 1)
            } else {
                Some(p)
            },
            None => if rows.last().account_id@ == id {
                Some(rows.len() - 1)
            } else {
                None
            },
        }
    }
}

/// Adding the turnovers up in order never leaves `i64` (summing them as the
/// report does would otherwise overflow).
pub open spec fn sums_fit(rows: Seq<BalanceRow>) -> bool {
    forall|k: int, id: Seq<char>, f: int|
        0 <= k <= rows.len() && 1 <= f < 3 ==> i64::MIN <= #[trigger] account_sum(rows.take(k), id, f) <= i64::MAX
}

/// `t` holds one entry per account that occurs in `rows`: its code is that of
/// the account's first row, its opening that of its earliest period (stored
/// openings are cumulative), and its turnovers the sums over its rows.
pub open spec fn totals_of(t: Seq<AccountTotals>, rows: Seq<BalanceRow>) -> bool {
    &&& forall|j: int, k: int| 0 <= j < k < t.len() ==> t[j].account_id@ != t[k].account_id@
    &&& forall|i: int| 0 <= i < rows.len() ==>
        exists|j: int| 0 <= j < t.len() && #[trigger] t[j].account_id@ == #[trigger] rows[i].account_id@
    &&& forall|j: int| 0 <= j < t.len() ==> {
        let id = #[trigger] t[j].account_id@;
        &&& first_row(rows, id) matches Some(i) && t[j].code@ == rows[i].account_code@
        &&& earliest_row(rows, id) matches Some(e) && t[j].opening == rows[e].opening_balance
            && t[j].opening_period@ == rows[e].period_key@
        &&& t[j].debit == account_sum(rows, id, 1)
        &&& t[j].credit == account_sum(rows, id, 2)
    }
}

proof fn lemma_step(rows: Seq<BalanceRow>, i: int, id: Seq<char>, f: int)
    requires
        0 <= i < rows.len(),
    ensures
        account_sum(rows.take(i + 1), id, f) == account_sum(rows.take(i), id, f)
            + if rows[i].account_id@ == id { row_amount(rows[i], f) } else { 0 },
        first_row(rows.take(i + 1), id) == match first_row(rows.take(i), id) {
            Some(p) => Some(p),
            None => if rows[i].account_id@ == id { Some(i) } else { None },
        },
        earliest_row(rows.take(i + 1), id) == match earliest_row(rows.take(i), id) {
            Some(p) => if rows[i].account_id@ == id && !text_le(rows[p].period_key@, rows[i].period_key@) {
                Some(i)
            } else {
                Some(p)
            },
            None => if rows[i].account_id@ == id { Some(i) } else { None },
        },
{
    assert(rows.take(i + 1).drop_last() =~= rows.take(i));
    lemma_earliest_bounds(rows.take(i), id);
    if let Some(p) = earliest_row(rows.take(i), id) {
        assert(rows.take(i + 1)[p] == rows[p]);
    }
}

proof fn lemma_first_row_bounds(rows: Seq<BalanceRow>, id: Seq<char>)
    ensures
        first_row(rows, id) matches Some(p) ==> 0 <= p < rows.len() && rows[p].account_id@ == id,
        first_row(rows, id) is None ==> forall|i: int| 0 <= i < rows.len() ==> rows[i].account_id@ != id,
        first_row(rows, id) is None ==> account_sum(rows, id, 0) == 0 && account_sum(rows, id, 1) == 0
            && account_sum(rows, id, 2) == 0,
    decreases rows.len(),
{
    if rows.len() > 0 {
        lemma_first_row_bounds(rows.drop_last(), id);
        assert forall|i: int| 0 <= i < rows.len() - 1 implies rows[i] == rows.drop_last()[i] by {}
    }
}

proof fn lemma_earliest_bounds(rows: Seq<BalanceRow>, id: Seq<char>)
    ensures
        earliest_row(rows, id) matches Some(p) ==> 0 <= p < rows.len() && rows[p].account_id@ == id,
        earliest_row(rows, id) is Some <==> first_row(rows, id) is Some,
    decreases rows.len(),
{
    if rows.len() > 0 {
        lemma_earliest_bounds(rows.drop_last(), id);
    }
}

/// The trial balance's opening comes from the account's earliest period:
/// the chosen row belongs to the account and no row of the account has an
/// earlier period.
pub proof fn lemma_opening_is_earliest(rows: Seq<BalanceRow>, id: Seq<char>)
    ensures
        earliest_row(rows, id) matches Some(e) ==> 0 <= e < rows.len() && rows[e].account_id@ == id
            && forall|i: int| 0 <= i < rows.len() && rows[i].account_id@ == id
                ==> text_le(rows[e].period_key@, #[trigger] rows[i].period_key@),
    decreases rows.len(),
{
    lemma_earliest_bounds(rows, id);
    if rows.len() > 0 {
        let init = rows.drop_last();
        lemma_opening_is_earliest(init, id);
        lemma_earliest_bounds(init, id);
        let n = rows.len() - 1;
        if let Some(e) = earliest_row(rows, id) {
            assert forall|i: int| 0 <= i < rows.len() && rows[i].account_id@ == id
                implies text_le(rows[e].period_key@, #[trigger] rows[i].period_key@) by {
                lemma_earliest_step_le(rows, id, e, i);
            }
        }
    }
}

proof fn lemma_earliest_step_le(rows: Seq<BalanceRow>, id: Seq<char>, e: int, i: int)
    requires
        rows.len() > 0,
        earliest_row(rows, id) == Some(e),
        0 <= i < rows.len(),
        rows[i].account_id@ == id,
        earliest_row(rows.drop_last(), id) matches Some(p) ==> forall|k: int| 0 <= k < rows.len() - 1
            && rows.drop_last()[k].account_id@ == id
            ==> text_le(rows.drop_last()[p].period_key@, #[trigger] rows.drop_last()[k].period_key@),
    ensures
        text_le(rows[e].period_key@, rows[i].period_key@),
{
    let init = rows.drop_last();
    let n = rows.len() - 1;
    let pn = rows[n].period_key@;
    lemma_earliest_bounds(init, id);
    lemma_first_row_bounds(init, id);
    lemma_text_le_total(pn, pn);
    match earliest_row(init, id) {
        Some(p) => {
            let pp = rows[p].period_key@;
            assert(init[p] == rows[p]);
            if i < n {
                assert(init[i] == rows[i]);
                assert(text_le(pp, rows[i].period_key@));
            }
            if e == n {
                assert(!text_le(pp, pn));
                lemma_text_le_total(pp, pn);
                assert(text_le(pn, pp));
                if i < n {
                    lemma_text_le_trans(pn, pp, rows[i].period_key@);
                }
            } else {
                assert(e == p);
                if i == n {
                    assert(text_le(pp, pn));
                }
            }
        },
        None => {
            assert(e == n);
            if i < n {
                assert(init[i] == rows[i]);
                assert(init[i].account_id@ == id);
            }
        },
    }
}

/// The index of the totals of account `id`, if present.
fn find_totals(t: &Vec<AccountTotals>, id: &str) -> (r: Option<usize>)
    ensures
        r matches Some(p) ==> p < t.len() && t@[p as int].account_id@ == id@,
        r is None ==> forall|j: int| 0 <= j < t.len() ==> t@[j].account_id@ != id@,
{
    let mut j: usize = 0;
    while j < t.len()
        invariant
            j <= t.len(),
            forall|k: int| 0 <= k < j ==> t@[k].account_id@ != id@,
        decreases t.len() - j,
    {
        if str_eq(t[j].account_id.as_str(), id) {
            return Some(j);
        }
        j = j + 1;
    }
    None
}

/// Groups the stored rows of a trial balance by account: the opening of each
/// account's earliest period, and its turnovers added up.
pub fn aggregate_balances(rows: &Vec<BalanceRow>) -> (r: Vec<AccountTotals>)
    requires
        sums_fit(rows@),
    ensures
        totals_of(r@, rows@),
{
    let mut t: Vec<AccountTotals> = Vec::new();
    let mut i: usize = 0;
    while i < rows.len()
        invariant
            i <= rows.len(),
            sums_fit(rows@),
            totals_of(t@, rows@.take(i as int)),
        decreases rows.len() - i,
    {
        let ghost old_t = t@;
        let ghost pre = rows@.take(i as int);
        let ghost post = rows@.take(i + 1);
        let row = &rows[i];
        let ghost rid = row.account_id@;
        proof {
            assert forall|id: Seq<char>, f: int| 1 <= f < 3 implies
                #[trigger] account_sum(post, id, f) == account_sum(pre, id, f)
                    + if rid == id { row_amount(rows@[i as int], f) } else { 0 } by {
                lemma_step(rows@, i as int, id, f);
            }
            assert forall|id: Seq<char>| #[trigger] first_row(post, id) == match first_row(pre, id) {
                Some(p) => Some(p),
                None => if rid == id { Some(i as int) } else { None },
            } by {
                lemma_step(rows@, i as int, id, 1);
            }
            assert forall|id: Seq<char>| #[trigger] earliest_row(post, id) == match earliest_row(pre, id) {
                Some(p) => if rid == id && !text_le(rows@[p].period_key@, rows@[i as int].period_key@) {
                    Some(i as int)
                } else {
                    Some(p)
                },
                None => if rid == id { Some(i as int) } else { None },
            } by {
                lemma_step(rows@, i as int, id, 1);
            }
            assert forall|k: int| 0 <= k < i implies #[trigger] post[k] == pre[k] by {}
            assert forall|k: int| 0 <= k < i implies #[trigger] pre[k] == rows@[k] by {}
            assert(post[i as int] == rows@[i as int]);
            assert(i64::MIN <= account_sum(rows@.take(i + 1), rid, 1) <= i64::MAX);
            assert(i64::MIN <= account_sum(rows@.take(i + 1), rid, 2) <= i64::MAX);
        }
        match find_totals(&t, row.account_id.as_str()) {
            Some(p) => {
                let cur = &t[p];
                proof {
                    assert(cur.account_id@ == rid);
                    lemma_earliest_bounds(pre, rid);
                    let e = earliest_row(pre, rid)->0;
                    assert(cur.opening_period@ == rows@[e].period_key@);
                }
                let later = text_le_exec(cur.opening_period.as_str(), row.period_key.as_str());
                let (opening, opening_period) = if later {
                    (cur.opening, cur.opening_period.clone())
                } else {
                    (row.opening_balance, row.period_key.clone())
                };
                let upd = AccountTotals {
                    account_id: cur.account_id.clone(),
                    code: cur.code.clone(),
                    opening,
                    opening_period,
                    debit: cur.debit + row.debit_turnover,
                    credit: cur.credit + row.credit_turnover,
                };
                t.set(p, upd);
                proof {
                    assert forall|i2: int| 0 <= i2 < post.len() implies
                        exists|j: int| 0 <= j < t@.len() && #[trigger] t@[j].account_id@ == #[trigger] post[i2].account_id@ by {
                        if i2 < i {
                            assert(post[i2] == pre[i2]);
                            let j = choose|j: int| 0 <= j < old_t.len() && #[trigger] old_t[j].account_id@ == #[trigger] pre[i2].account_id@;
                            assert(t@[j].account_id@ == old_t[j].account_id@);
                        } else {
                            assert(t@[p as int].account_id@ == post[i2].account_id@);
                        }
                    }
                    assert forall|j: int| 0 <= j < t@.len() implies {
                        let id = #[trigger] t@[j].account_id@;
                        &&& first_row(post, id) matches Some(i2) && t@[j].code@ == post[i2].account_code@
                        &&& earliest_row(post, id) matches Some(e) && t@[j].opening == post[e].opening_balance
                            && t@[j].opening_period@ == post[e].period_key@
                        &&& t@[j].debit == account_sum(post, id, 1)
                        &&& t@[j].credit == account_sum(post, id, 2)
                    } by {
                        let id = t@[j].account_id@;
                        assert(account_sum(post, id, 1) == account_sum(pre, id, 1) + if rid == id { row_amount(rows@[i as int], 1) } else { 0 });
                        assert(account_sum(post, id, 2) == account_sum(pre, id, 2) + if rid == id { row_amount(rows@[i as int], 2) } else { 0 });
                        assert(first_row(post, id) == first_row(pre, id));
                        lemma_earliest_bounds(pre, id);
                        let e0 = earliest_row(pre, id)->0;
                        assert(post[e0] == pre[e0]);
                        if j != p {
                            assert(t@[j] == old_t[j]);
                            assert(old_t[j].account_id@ != old_t[p as int].account_id@);
                            assert(earliest_row(post, id) == earliest_row(pre, id));
                        }
                        let i2 = first_row(pre, id)->0;
                        lemma_first_row_bounds(pre, id);
                        assert(post[i2] == pre[i2]);
                    }
                }
            },
            None => {
                proof {
                    lemma_first_row_bounds(pre, rid);
                    lemma_earliest_bounds(pre, rid);
                    assert(first_row(pre, rid) is None) by {
                        if first_row(pre, rid) is Some {
                            let p = first_row(pre, rid)->0;
                            lemma_first_row_bounds(pre, rid);
                            let j = choose|j: int| 0 <= j < old_t.len() && #[trigger] old_t[j].account_id@ == #[trigger] pre[p].account_id@;
                        }
                    }
                }
                t.push(AccountTotals {
                    account_id: row.account_id.clone(),
                    code: row.account_code.clone(),
                    opening: row.opening_balance,
                    opening_period: row.period_key.clone(),
                    debit: row.debit_turnover,
                    credit: row.credit_turnover,
                });
                proof {
                    let n = old_t.len() as int;
                    assert forall|i2: int| 0 <= i2 < post.len() implies
                        exists|j: int| 0 <= j < t@.len() && #[trigger] t@[j].account_id@ == #[trigger] post[i2].account_id@ by {
                        if i2 < i {
                            assert(post[i2] == pre[i2]);
                            let j = choose|j: int| 0 <= j < old_t.len() && #[trigger] old_t[j].account_id@ == #[trigger] pre[i2].account_id@;
                            assert(t@[j] == old_t[j]);
                        } else {
                            assert(t@[n].account_id@ == post[i2].account_id@);
                        }
                    }
                    assert forall|j: int| 0 <= j < t@.len() implies {
                        let id = #[trigger] t@[j].account_id@;
                        &&& first_row(post, id) matches Some(i2) && t@[j].code@ == post[i2].account_code@
                        &&& earliest_row(post, id) matches Some(e) && t@[j].opening == post[e].opening_balance
                            && t@[j].opening_period@ == post[e].period_key@
                        &&& t@[j].debit == account_sum(post, id, 1)
                        &&& t@[j].credit == account_sum(post, id, 2)
                    } by {
                        let id = t@[j].account_id@;
                        assert(account_sum(post, id, 1) == account_sum(pre, id, 1) + if rid == id { row_amount(rows@[i as int], 1) } else { 0 });
                        assert(account_sum(post, id, 2) == account_sum(pre, id, 2) + if rid == id { row_amount(rows@[i as int], 2) } else { 0 });
                        lemma_earliest_bounds(pre, id);
                        if j < n {
                            assert(t@[j] == old_t[j]);
                            assert(first_row(post, id) == first_row(pre, id));
                            assert(earliest_row(post, id) == earliest_row(pre, id));
                            let e0 = earliest_row(pre, id)->0;
                            assert(post[e0] == pre[e0]);
                            let i2 = first_row(pre, id)->0;
                            lemma_first_row_bounds(pre, id);
                            assert(post[i2] == pre[i2]);
                        } else {
                            assert(first_row(post, id) == Some(i as int));
                            assert(earliest_row(post, id) == Some(i as int));
                        }
                    }
                    assert forall|j: int, k: int| 0 <= j < k < t@.len() implies t@[j].account_id@ != t@[k].account_id@ by {
                        if k == n {
                            assert(t@[j] == old_t[j]);
                        } else {
                            assert(t@[j] == old_t[j]);
                            assert(t@[k] == old_t[k]);
                        }
                    }
                }
            },
        }
        i = i + 1;
    }
    proof {
        assert(rows@.take(rows.len() as int) =~= rows@);
    }
    t
}

/// The sum of field `f` over all rows.
pub open spec fn column_total(rows: Seq<BalanceRow>, f: int) -> int
    decreases rows.len(),
{
    if rows.len() == 0 {
        0
    } else {
        column_total(rows.drop_last(), f) + row_amount(rows.last(), f)
    }
}

/// Field `f` of an account's totals (as in `row_amount`).
pub open spec fn totals_amount(t: AccountTotals, f: int) -> int {
    if f == 0 {
        t.opening as int
    } else if f == 1 {
        t.debit as int
    } else {
        t.credit as int
    }
}

/// The sum of field `f` over all accounts' totals.
pub open spec fn totals_column(t: Seq<AccountTotals>, f: int) -> int
    decreases t.len(),
{
    if t.len() == 0 {
        0
    } else {
        totals_column(t.drop_last(), f) + totals_amount(t.last(), f)
    }
}

spec fn sum_over(rows: Seq<BalanceRow>, t: Seq<AccountTotals>, f: int) -> int
    decreases t.len(),
{
    if t.len() == 0 {
        0
    } else {
        sum_over(rows, t.drop_last(), f) + account_sum(rows, t.last().account_id@, f)
    }
}

spec fn hits(t: Seq<AccountTotals>, x: Seq<char>, a: int) -> int
    decreases t.len(),
{
    if t.len() == 0 {
        0
    } else {
        hits(t.drop_last(), x, a) + if t.last().account_id@ == x { a } else { 0 }
    }
}

spec fn distinct_ids(t: Seq<AccountTotals>) -> bool {
    forall|j: int, k: int| 0 <= j < k < t.len() ==> t[j].account_id@ != t[k].account_id@
}

proof fn lemma_hits(t: Seq<AccountTotals>, x: Seq<char>, a: int)
    requires
        distinct_ids(t),
    ensures
        (exists|j: int| 0 <= j < t.len() && t[j].account_id@ == x) ==> hits(t, x, a) == a,
        (forall|j: int| 0 <= j < t.len() ==> t[j].account_id@ != x) ==> hits(t, x, a) == 0,
    decreases t.len(),
{
    if t.len() > 0 {
        let init = t.drop_last();
        assert forall|j: int| 0 <= j < init.len() implies init[j] == t[j] by {}
        lemma_hits(init, x, a);
        if t.last().account_id@ == x {
            assert forall|j: int| 0 <= j < init.len() implies init[j].account_id@ != x by {
                assert(t[j].account_id@ != t[t.len() - 1].account_id@);
            }
        } else if exists|j: int| 0 <= j < t.len() && t[j].account_id@ == x {
            let j = choose|j: int| 0 <= j < t.len() && t[j].account_id@ == x;
            assert(j < init.len());
            assert(init[j].account_id@ == x);
        }
    }
}

proof fn lemma_sum_over_step(rows: Seq<BalanceRow>, t: Seq<AccountTotals>, f: int)
    requires
        rows.len() > 0,
    ensures
        sum_over(rows, t, f) == sum_over(rows.drop_last(), t, f) + hits(t, rows.last().account_id@, row_amount(rows.last(), f)),
    decreases t.len(),
{
    if t.len() > 0 {
        lemma_sum_over_step(rows, t.drop_last(), f);
    }
}

proof fn lemma_sum_over_empty(rows: Seq<BalanceRow>, t: Seq<AccountTotals>, f: int)
    requires
        rows.len() == 0,
    ensures
        sum_over(rows, t, f) == 0,
    decreases t.len(),
{
    if t.len() > 0 {
        lemma_sum_over_empty(rows, t.drop_last(), f);
    }
}

spec fn id_listed(t: Seq<AccountTotals>, x: Seq<char>) -> bool {
    exists|j: int| 0 <= j < t.len() && t[j].account_id@ == x
}

proof fn lemma_sum_over_total(rows: Seq<BalanceRow>, t: Seq<AccountTotals>, f: int)
    requires
        distinct_ids(t),
        forall|i: int| 0 <= i < rows.len() ==> id_listed(t, #[trigger] rows[i].account_id@),
    ensures
        sum_over(rows, t, f) == column_total(rows, f),
    decreases rows.len(),
{
    if rows.len() == 0 {
        lemma_sum_over_empty(rows, t, f);
    } else {
        let init = rows.drop_last();
        assert forall|i: int| 0 <= i < init.len() implies id_listed(t, #[trigger] init[i].account_id@) by {
            assert(init[i] == rows[i]);
        }
        lemma_sum_over_total(init, t, f);
        lemma_sum_over_step(rows, t, f);
        let x = rows.last().account_id@;
        assert(rows[rows.len() - 1].account_id@ == x);
        assert(id_listed(t, x));
        lemma_hits(t, x, row_amount(rows.last(), f));
    }
}

proof fn lemma_totals_column(t: Seq<AccountTotals>, rows: Seq<BalanceRow>, f: int)
    requires
        forall|j: int| 0 <= j < t.len() ==> totals_amount(#[trigger] t[j], f) == account_sum(rows, t[j].account_id@, f),
    ensures
        totals_column(t, f) == sum_over(rows, t, f),
    decreases t.len(),
{
    if t.len() > 0 {
        let init = t.drop_last();
        assert forall|j: int| 0 <= j < init.len() implies totals_amount(#[trigger] init[j], f) == account_sum(rows, init[j].account_id@, f) by {
            assert(init[j] == t[j]);
        }
        lemma_totals_column(init, rows, f);
        assert(t[t.len() - 1] == t.last());
    }
}

/// Grouping by account loses and double-counts no turnover: the debit and
/// the credit turnovers of the accounts' totals add up to those of the rows.
pub proof fn lemma_totals_keep_column_sums(t: Seq<AccountTotals>, rows: Seq<BalanceRow>, f: int)
    requires
        totals_of(t, rows),
        1 <= f < 3,
    ensures
        totals_column(t, f) == column_total(rows, f),
{
    assert forall|j: int| 0 <= j < t.len() implies totals_amount(#[trigger] t[j], f) == account_sum(rows, t[j].account_id@, f) by {
        let id = t[j].account_id@;
        assert(t[j].account_id@ == id);
    }
    lemma_totals_column(t, rows, f);
    assert forall|i: int| 0 <= i < rows.len() implies id_listed(t, #[trigger] rows[i].account_id@) by {
        let j = choose|j: int| 0 <= j < t.len() && #[trigger] t[j].account_id@ == #[trigger] rows[i].account_id@;
    }
    lemma_sum_over_total(rows, t, f);
}

/// The sign with which the trial balance turns turnovers into a balance, by
/// the stored type text of the account: credit minus debit for liability,
/// equity and revenue accounts, debit minus credit for anything else
/// (an account whose type is unknown counts as an asset).
pub open spec fn type_sign(acc_type: Seq<char>) -> int {
    if acc_type == "liability"@ || acc_type == "equity"@ || acc_type == "revenue"@ {
        -1
    } else {
        1
    }
}

/// The balance sign for a stored account type text.
pub fn report_sign(acc_type: &str) -> (r: i64)
    ensures
        r == type_sign(acc_type@),
{
    if str_eq(acc_type, "liability") || str_eq(acc_type, "equity") || str_eq(acc_type, "revenue") {
        -1
    } else {
        1
    }
}

/// One line of the trial balance.
pub struct OsvRow {
    pub code: String,
    pub name: String,
    pub acc_type: String,
    pub opening_balance: i64,
    pub debit_turnover: i64,
    pub credit_turnover: i64,
    pub balance: i64,
    pub closing_balance: i64,
}

/// The movement of the period: the turnovers signed by the account type.
pub open spec fn osv_balance(t: AccountTotals, acc_type: Seq<char>) -> int {
    type_sign(acc_type) * (t.debit - t.credit)
}

/// Can the line of `t` be computed in `i64` (difference, signed balance and
/// closing balance)?
pub open spec fn osv_fits(t: AccountTotals, acc_type: Seq<char>) -> bool {
    &&& i64::MIN < t.debit - t.credit <= i64::MAX
    &&& i64::MIN <= t.opening + osv_balance(t, acc_type) <= i64::MAX
}

/// The trial balance line of an account's totals, named and typed from its
/// chart entry.
pub open spec fn osv_line(o: OsvRow, t: AccountTotals, name: Seq<char>, acc_type: Seq<char>) -> bool {
    &&& o.code@ == t.code@
    &&& o.name@ == name
    &&& o.acc_type@ == acc_type
    &&& o.opening_balance == t.opening
    &&& o.debit_turnover == t.debit
    &&& o.credit_turnover == t.credit
    &&& o.balance == osv_balance(t, acc_type)
    &&& o.closing_balance == t.opening + osv_balance(t, acc_type)
}

/// The trial balance line of one account: balance = sign × (debit − credit),
/// closing = opening + balance.
pub fn osv_row(t: &AccountTotals, name: String, acc_type: String) -> (r: OsvRow)
    requires
        osv_fits(*t, acc_type@),
    ensures
        osv_line(r, *t, name@, acc_type@),
{
    let sign = report_sign(acc_type.as_str());
    let diff = t.debit - t.credit;
    let balance = if sign < 0 { -diff } else { diff };
    OsvRow {
        code: t.code.clone(),
        name,
        acc_type,
        opening_balance: t.opening,
        debit_turnover: t.debit,
        credit_turnover: t.credit,
        balance,
        closing_balance: t.opening + balance,
    }
}

/// Are the lines in order of their codes?
pub open spec fn sorted_by_code(rows: Seq<OsvRow>) -> bool {
    forall|a: int, b: int| 0 <= a < b < rows.len() ==> text_le(#[trigger] rows[a].code@, #[trigger] rows[b].code@)
}

proof fn lemma_insert_keeps_sorted(before: Seq<OsvRow>, p: int, it: OsvRow)
    requires
        sorted_by_code(before),
        0 <= p <= before.len(),
        forall|k: int| 0 <= k < p ==> text_le(#[trigger] before[k].code@, it.code@),
        p < before.len() ==> text_le(it.code@, before[p].code@),
    ensures
        sorted_by_code(before.insert(p, it)),
{
    let out = before.insert(p, it);
    before.insert_ensures(p, it);
    assert forall|a: int, b: int| 0 <= a < b < out.len() implies text_le(#[trigger] out[a].code@, #[trigger] out[b].code@) by {
        let ca = out[a].code@;
        let cb = out[b].code@;
        if b < p {
            assert(out[a] == before[a] && out[b] == before[b]);
            assert(text_le(before[a].code@, before[b].code@));
            assert(text_le(ca, cb));
        } else if b == p {
            assert(out[a] == before[a]);
            assert(out[b] == it);
            assert(text_le(before[a].code@, it.code@));
            assert(text_le(ca, cb));
        } else if a == p {
            assert(out[a] == it);
            assert(out[b] == before[b - 1]);
            if b - 1 > p {
                assert(text_le(before[p].code@, before[b - 1].code@));
                lemma_text_le_trans(it.code@, before[p].code@, before[b - 1].code@);
            }
            assert(text_le(it.code@, before[b - 1].code@));
            assert(text_le(ca, cb));
        } else if a < p {
            assert(out[a] == before[a] && out[b] == before[b - 1]);
            assert(text_le(before[a].code@, before[b - 1].code@));
            assert(text_le(ca, cb));
        } else {
            assert(out[a] == before[a - 1] && out[b] == before[b - 1]);
            assert(text_le(before[a - 1].code@, before[b - 1].code@));
            assert(text_le(ca, cb));
        }
    }
}

/// The lines in order of their account codes (a stable insertion sort).
pub fn sort_by_code(rows: Vec<OsvRow>) -> (r: Vec<OsvRow>)
    ensures
        sorted_by_code(r@),
        r@.to_multiset() == rows@.to_multiset(),
        r.len() == rows.len(),
{
    let mut out: Vec<OsvRow> = Vec::new();
    let mut rest = rows;
    let ghost all = rest@;
    let mut i: usize = 0;
    let n = rest.len();
    proof {
        assert(all.take(0) =~= Seq::<OsvRow>::empty());
        assert(all.skip(0) =~= all);
    }
    while i < n
        invariant
            n == all.len(),
            i <= n,
            rest@ == all.skip(i as int),
            sorted_by_code(out@),
            out@.to_multiset() == all.take(i as int).to_multiset(),
            out.len() == i,
        decreases n - i,
    {
        let item = rest.remove(0);
        proof {
            assert(item == all[i as int]);
            assert(rest@ =~= all.skip(i + 1));
            assert(all.take(i + 1) =~= all.take(i as int).push(item));
        }
        let mut p: usize = 0;
        while p < out.len() && text_le_exec(out[p].code.as_str(), item.code.as_str())
            invariant
                p <= out.len(),
                forall|k: int| 0 <= k < p ==> text_le(#[trigger] out@[k].code@, item.code@),
            decreases out.len() - p,
        {
            p = p + 1;
        }
        let ghost before = out@;
        proof {
            if p < out.len() {
                assert(!text_le(out@[p as int].code@, item.code@));
                lemma_text_le_total(out@[p as int].code@, item.code@);
                assert(text_le(item.code@, before[p as int].code@));
            }
        }
        out.insert(p, item);
        proof {
            lemma_insert_keeps_sorted(before, p as int, all[i as int]);
        }
        i = i + 1;
    }
    proof {
        assert(all.take(n as int) =~= all);
    }
    out
}

/// The trial balance: one line per account (names and type texts given in
/// the order of `totals`), in order of account codes.
pub fn osv_rows(totals: &Vec<AccountTotals>, names: Vec<String>, types: Vec<String>) -> (r: Vec<OsvRow>)
    requires
        names.len() == totals.len(),
        types.len() == totals.len(),
        forall|j: int| 0 <= j < totals.len() ==> osv_fits(#[trigger] totals@[j], types@[j]@),
    ensures
        sorted_by_code(r@),
        r.len() == totals.len(),
        exists|lines: Seq<OsvRow>| lines.len() == totals.len()
            && r@.to_multiset() == lines.to_multiset()
            && forall|j: int| 0 <= j < totals.len() ==> osv_line(#[trigger] lines[j], totals@[j], names@[j]@, types@[j]@),
{
    let mut lines: Vec<OsvRow> = Vec::new();
    let mut names = names;
    let mut types = types;
    let ghost names0 = names@;
    let ghost types0 = types@;
    let mut j: usize = 0;
    proof {
        assert(names0.skip(0) =~= names0);
        assert(types0.skip(0) =~= types0);
    }
    while j < totals.len()
        invariant
            j <= totals.len(),
            names0.len() == totals.len(),
            types0.len() == totals.len(),
            names@ == names0.skip(j as int),
            types@ == types0.skip(j as int),
            forall|k: int| 0 <= k < totals.len() ==> osv_fits(#[trigger] totals@[k], types0[k]@),
            lines.len() == j,
            forall|k: int| 0 <= k < j ==> osv_line(#[trigger] lines@[k], totals@[k], names0[k]@, types0[k]@),
        decreases totals.len() - j,
    {
        let name = names.remove(0);
        let ty = types.remove(0);
        proof {
            assert(name == names0[j as int]);
            assert(ty == types0[j as int]);
            assert(names@ =~= names0.skip(j + 1));
            assert(types@ =~= types0.skip(j + 1));
        }
        let line = osv_row(&totals[j], name, ty);
        lines.push(line);
        j = j + 1;
    }
    let ghost unsorted = lines@;
    let r = sort_by_code(lines);
    proof {
        assert(unsorted.len() == totals.len());
    }
    r
}

// ───────────────────────── journal ─────────────────────────

/// How many journal records a query returns: the requested number (100 when
/// none is given), kept between 1 and 500.
pub fn journal_limit(limit: Option<i64>) -> (r: i64)
    ensures
        r == match limit {
            Some(l) => if l < 1 { 1 } else if l > 500 { 500 } else { l },
            None => 100,
        },
{
    match limit {
        Some(l) => if l < 1 { 1 } else if l > 500 { 500 } else { l },
        None => 100,
    }
}

/// A journal query: the records of a company, optionally from and to a date
/// (both bounds inclusive), touching an account on either side, or of one
/// source document; at most `limit` of them, the latest first.
pub struct JournalQuery {
    pub company_id: String,
    pub date_from: Option<String>,
    pub date_to: Option<String>,
    pub account_code: Option<String>,
    pub doc_id: Option<String>,
    pub limit: i64,
}

/// Does a journal query select a record?
pub open spec fn journal_selects(q: JournalQuery, e: LedgerEntry) -> bool {
    &&& e.company_id@ == q.company_id@
    &&& (q.date_from matches Some(f) ==> text_le(f@, e.date@))
    &&& (q.date_to matches Some(t) ==> text_le(e.date@, t@))
    &&& (q.account_code matches Some(a) ==> e.debit_code@ == a@ || e.credit_code@ == a@)
    &&& (q.doc_id matches Some(d) ==> (e.doc_id matches Some(x) && x@ == d@))
}

/// Is record `a` listed no later than record `b` in the journal: a later
/// date first, and on one date the later created first?
pub open spec fn journal_precedes(a: LedgerEntry, b: LedgerEntry) -> bool {
    if a.date@ == b.date@ {
        a.created_at >= b.created_at
    } else {
        text_le(b.date@, a.date@)
    }
}

proof fn lemma_text_le_antisym(a: Seq<char>, b: Seq<char>)
    requires
        text_le(a, b),
        text_le(b, a),
    ensures
        a == b,
    decreases a.len(),
{
    if a.len() > 0 && b.len() > 0 && a[0] == b[0] {
        lemma_text_le_antisym(a.drop_first(), b.drop_first());
        assert(a =~= seq![a[0]] + a.drop_first());
        assert(b =~= seq![b[0]] + b.drop_first());
    }
}

/// The journal order is total and transitive, so any two records have a
/// place relative to each other and the listing is well defined up to ties
/// (same date, same creation time).
pub proof fn lemma_journal_order(a: LedgerEntry, b: LedgerEntry, c: LedgerEntry)
    ensures
        journal_precedes(a, b) || journal_precedes(b, a),
        journal_precedes(a, b) && journal_precedes(b, c) ==> journal_precedes(a, c),
{
    lemma_text_le_total(a.date@, b.date@);
    if journal_precedes(a, b) && journal_precedes(b, c) {
        if a.date@ != b.date@ && b.date@ != c.date@ {
            lemma_text_le_trans(c.date@, b.date@, a.date@);
            if a.date@ == c.date@ {
                lemma_text_le_antisym(a.date@, b.date@);
            }
        }
    }
}

/// The journal query of a company with the given filters; the limit is
/// `journal_limit` of the one requested.
pub fn journal_query(
    company_id: String,
    date_from: Option<String>,
    date_to: Option<String>,
    account_code: Option<String>,
    doc_id: Option<String>,
    limit: Option<i64>,
) -> (r: JournalQuery)
    ensures
        r.company_id == company_id,
        r.date_from == date_from,
        r.date_to == date_to,
        r.account_code == account_code,
        r.doc_id == doc_id,
        r.limit == match limit {
            Some(l) => if l < 1 { 1 } else if l > 500 { 500 } else { l },
            None => 100,
        },
{
    JournalQuery { company_id, date_from, date_to, account_code, doc_id, limit: journal_limit(limit) }
}

impl JournalQuery {
    /// Does the query select the record?
    pub fn selects(&self, e: &LedgerEntry) -> (r: bool)
        ensures
            r == journal_selects(*self, *e),
    {
        if !str_eq(e.company_id.as_str(), self.company_id.as_str()) {
            return false;
        }
        if let Some(f) = &self.date_from {
            if !text_le_exec(f.as_str(), e.date.as_str()) {
                return false;
            }
        }
        if let Some(t) = &self.date_to {
            if !text_le_exec(e.date.as_str(), t.as_str()) {
                return false;
            }
        }
        if let Some(a) = &self.account_code {
            if !str_eq(e.debit_code.as_str(), a.as_str()) && !str_eq(e.credit_code.as_str(), a.as_str()) {
                return false;
            }
        }
        if let Some(d) = &self.doc_id {
            match &e.doc_id {
                Some(x) => {
                    if !str_eq(x.as_str(), d.as_str()) {
                        return false;
                    }
                },
                None => { return false; },
            }
        }
        true
    }
}

/// Is record `a` listed no later than record `b` in the journal?
pub fn journal_precedes_exec(a: &LedgerEntry, b: &LedgerEntry) -> (r: bool)
    ensures
        r == journal_precedes(*a, *b),
{
    if str_eq(a.date.as_str(), b.date.as_str()) {
        a.created_at >= b.created_at
    } else {
        text_le_exec(b.date.as_str(), a.date.as_str())
    }
}

/// The JSON of an optional text: the text, or `null`.
pub open spec fn opt_text_json(t: Option<String>) -> JsonValue {
    match t {
        Some(x) => JsonValue::String(x),
        None => JsonValue::Null,
    }
}

/// The JSON of an amount, by its sign.
pub open spec fn amount_json(a: i64) -> JsonValue {
    if a >= 0 { JsonValue::Number(JsonNumber::PosInt(a as u64)) } else { JsonValue::Number(JsonNumber::NegInt(a)) }
}

/// A journal record as the journal lists it: `id`, `date`, `posting_id`,
/// `doc_kind`, `doc_id`, `debit_code`, `credit_code`, `amount`,
/// `nomenclature_id`, `description`, `is_reversal`, in that order (missing
/// optional texts as `null`).
pub fn journal_row(e: &LedgerEntry) -> (r: JsonValue)
    ensures
        r matches JsonValue::Object(m) && m@.len() == 11
            && m@[0].0@ == "id"@ && m@[0].1 == JsonValue::String(e.id)
            && m@[1].0@ == "date"@ && m@[1].1 == JsonValue::String(e.date)
            && m@[2].0@ == "posting_id"@ && m@[2].1 == JsonValue::String(e.posting_id)
            && m@[3].0@ == "doc_kind"@ && m@[3].1 == opt_text_json(e.doc_kind)
            && m@[4].0@ == "doc_id"@ && m@[4].1 == opt_text_json(e.doc_id)
            && m@[5].0@ == "debit_code"@ && m@[5].1 == JsonValue::String(e.debit_code)
            && m@[6].0@ == "credit_code"@ && m@[6].1 == JsonValue::String(e.credit_code)
            && m@[7].0@ == "amount"@ && m@[7].1 == amount_json(e.amount)
            && m@[8].0@ == "nomenclature_id"@ && m@[8].1 == opt_text_json(e.nomenclature_id)
            && m@[9].0@ == "description"@ && m@[9].1 == opt_text_json(e.description)
            && m@[10].0@ == "is_reversal"@ && m@[10].1 == JsonValue::Bool(e.is_reversal),
{
    let mut m: Vec<(String, JsonValue)> = Vec::new();
    m.push((owned("id"), JsonValue::String(e.id.clone())));
    m.push((owned("date"), JsonValue::String(e.date.clone())));
    m.push((owned("posting_id"), JsonValue::String(e.posting_id.clone())));
    m.push((owned("doc_kind"), opt_text_json_exec(&e.doc_kind)));
    m.push((owned("doc_id"), opt_text_json_exec(&e.doc_id)));
    m.push((owned("debit_code"), JsonValue::String(e.debit_code.clone())));
    m.push((owned("credit_code"), JsonValue::String(e.credit_code.clone())));
    let amount = if e.amount >= 0 {
        JsonValue::Number(JsonNumber::PosInt(e.amount as u64))
    } else {
        JsonValue::Number(JsonNumber::NegInt(e.amount))
    };
    m.push((owned("amount"), amount));
    m.push((owned("nomenclature_id"), opt_text_json_exec(&e.nomenclature_id)));
    m.push((owned("description"), opt_text_json_exec(&e.description)));
    m.push((owned("is_reversal"), JsonValue::Bool(e.is_reversal)));
    JsonValue::Object(m)
}

fn opt_text_json_exec(t: &Option<String>) -> (r: JsonValue)
    ensures
        r == opt_text_json(*t),
{
    match t {
        Some(x) => JsonValue::String(x.clone()),
        None => JsonValue::Null,
    }
}

// ───────────────────────── account card ─────────────────────────

/// A journal record as the account card reads it.
pub struct CardEntry {
    pub debit_code: String,
    pub credit_code: String,
    pub amount: i64,
}

/// One line of the account card.
pub struct CardLine {
    /// Is the card's account on the debit side of the record?
    pub is_debit: bool,
    pub amount: i64,
    /// The balance after this record.
    pub running_balance: i64,
}

/// The sign of the card's balance for the account's type (an account that is
/// not found counts as an asset).
pub fn card_sign(account_type: Option<AccountType>) -> (r: i64)
    ensures
        r == match account_type {
            Some(t) => spec_balance_sign(t),
            None => 1,
        },
{
    match account_type {
        Some(t) => t.balance_sign(),
        None => 1,
    }
}

/// What a record moves the card's balance by: `amount × sign` when the
/// account is debited, `−amount × sign` otherwise.
pub open spec fn card_delta(e: CardEntry, code: Seq<char>, sign: int) -> int {
    if e.debit_code@ == code {
        e.amount * sign
    } else {
        -e.amount * sign
    }
}

/// The card's balance after the records `es`, starting from `opening`.
pub open spec fn card_running(es: Seq<CardEntry>, code: Seq<char>, sign: int, opening: int) -> int
    decreases es.len(),
{
    if es.len() == 0 {
        opening
    } else {
        card_running(es.drop_last(), code, sign, opening) + card_delta(es.last(), code, sign)
    }
}

/// Every running balance of the card fits in `i64`, and no amount is
/// `i64::MIN` (whose negation overflows).
pub open spec fn card_fits(es: Seq<CardEntry>, code: Seq<char>, sign: int, opening: int) -> bool {
    &&& forall|i: int| 0 <= i < es.len() ==> #[trigger] es[i].amount > i64::MIN
    &&& forall|k: int| 0 <= k <= es.len() ==> i64::MIN <= #[trigger] card_running(es.take(k), code, sign, opening) <= i64::MAX
}

/// The account card: for each record, whether the account is debited and the
/// running balance after it; and the final balance.
pub fn card_lines(entries: &Vec<CardEntry>, account_code: &str, sign: i64, opening: i64) -> (r: (Vec<CardLine>, i64))
    requires
        sign == 1 || sign == -1,
        card_fits(entries@, account_code@, sign as int, opening as int),
    ensures
        r.0.len() == entries.len(),
        forall|i: int| 0 <= i < entries.len() ==> {
            &&& (#[trigger] r.0@[i]).is_debit == (entries@[i].debit_code@ == account_code@)
            &&& r.0@[i].amount == entries@[i].amount
            &&& r.0@[i].running_balance == card_running(entries@.take(i + 1), account_code@, sign as int, opening as int)
        },
        r.1 == card_running(entries@, account_code@, sign as int, opening as int),
{
    let ghost code = account_code@;
    let mut lines: Vec<CardLine> = Vec::new();
    let mut running: i64 = opening;
    let mut i: usize = 0;
    proof {
        assert(entries@.take(0) =~= Seq::<CardEntry>::empty());
    }
    while i < entries.len()
        invariant
            i <= entries.len(),
            sign == 1 || sign == -1,
            code == account_code@,
            card_fits(entries@, code, sign as int, opening as int),
            running == card_running(entries@.take(i as int), code, sign as int, opening as int),
            lines.len() == i,
            forall|k: int| 0 <= k < i ==> {
                &&& (#[trigger] lines@[k]).is_debit == (entries@[k].debit_code@ == code)
                &&& lines@[k].amount == entries@[k].amount
                &&& lines@[k].running_balance == card_running(entries@.take(k + 1), code, sign as int, opening as int)
            },
        decreases entries.len() - i,
    {
        let e = &entries[i];
        let is_debit = str_eq(e.debit_code.as_str(), account_code);
        proof {
            assert(entries@.take(i + 1).drop_last() =~= entries@.take(i as int));
            assert(entries@.take(i + 1).last() == entries@[i as int]);
            assert(e.amount > i64::MIN);
            assert(i64::MIN <= card_running(entries@.take(i + 1), code, sign as int, opening as int) <= i64::MAX);
        }
        let delta: i64 = if is_debit {
            if sign < 0 { -e.amount } else { e.amount }
        } else {
            if sign < 0 { e.amount } else { -e.amount }
        };
        running = running + delta;
        lines.push(CardLine { is_debit, amount: e.amount, running_balance: running });
        i = i + 1;
    }
    proof {
        assert(entries@.take(entries.len() as int) =~= entries@);
    }
    (lines, running)
}

/// The sum of the amounts of the records that debit the account.
pub open spec fn debit_total(es: Seq<CardEntry>, code: Seq<char>) -> int
    decreases es.len(),
{
    if es.len() == 0 {
        0
    } else {
        debit_total(es.drop_last(), code) + if es.last().debit_code@ == code { es.last().amount as int } else { 0 }
    }
}

/// The sum of the amounts of the records that credit the account without
/// debiting it.
pub open spec fn credit_total(es: Seq<CardEntry>, code: Seq<char>) -> int
    decreases es.len(),
{
    if es.len() == 0 {
        0
    } else {
        credit_total(es.drop_last(), code) + if es.last().debit_code@ != code && es.last().credit_code@ == code {
            es.last().amount as int
        } else {
            0
        }
    }
}

/// The card and the trial balance agree: over records that each debit or
/// credit the account, the card's final balance is the opening balance plus
/// `sign × (debit turnover − credit turnover)`, the trial balance's formula.
pub proof fn lemma_card_final_matches_turnovers(es: Seq<CardEntry>, code: Seq<char>, sign: int, opening: int)
    requires
        forall|i: int| 0 <= i < es.len() ==> (#[trigger] es[i]).debit_code@ == code || es[i].credit_code@ == code,
    ensures
        card_running(es, code, sign, opening) == opening + sign * (debit_total(es, code) - credit_total(es, code)),
    decreases es.len(),
{
    if es.len() > 0 {
        let init = es.drop_last();
        assert forall|i: int| 0 <= i < init.len() implies (#[trigger] init[i]).debit_code@ == code || init[i].credit_code@ == code by {
            assert(init[i] == es[i]);
        }
        lemma_card_final_matches_turnovers(init, code, sign, opening);
        let e = es.last();
        assert(es[es.len() - 1] == e);
        assert(sign * (debit_total(es, code) - credit_total(es, code))
            == sign * (debit_total(init, code) - credit_total(init, code)) + card_delta(e, code, sign)) by (nonlinear_arith)
            requires
                debit_total(es, code) == debit_total(init, code) + if e.debit_code@ == code { e.amount as int } else { 0 },
                credit_total(es, code) == credit_total(init, code) + if e.debit_code@ != code && e.credit_code@ == code { e.amount as int } else { 0 },
                e.debit_code@ == code || e.credit_code@ == code,
                card_delta(e, code, sign) == if e.debit_code@ == code { e.amount * sign } else { -e.amount * sign },
        ;
    } else {
        assert(sign * (debit_total(es, code) - credit_total(es, code)) == 0) by (nonlinear_arith)
            requires
                debit_total(es, code) == 0,
                credit_total(es, code) == 0,
        ;
    }
}

/// The account card and the trial balance agree on an account's sign: the
/// card's sign for a type is the trial balance's sign for the type's stored
/// code.
pub proof fn lemma_card_sign_agrees_with_trial_balance(t: AccountType)
    ensures
        spec_balance_sign(t) == type_sign(account_type_code(t)),
{
    reveal_strlit("asset");
    reveal_strlit("liability");
    reveal_strlit("equity");
    reveal_strlit("revenue");
    reveal_strlit("expense");
    reveal_strlit("off_balance");
    assert("liability"@.len() == 9 && "equity"@.len() == 6 && "revenue"@.len() == 7);
    assert("asset"@.len() == 5 && "expense"@.len() == 7 && "off_balance"@.len() == 11);
    assert("expense"@[0] == 'e' && "revenue"@[0] == 'r');
}

/// Liabilities, equity and revenue grow with credits; assets, expenses and
/// off-balance accounts with debits: on an account's card, a record that
/// credits the account by `x` moves its balance by `+x` for the former and
/// by `-x` for the latter.
pub proof fn lemma_credit_moves_card_balance(t: AccountType, e: CardEntry, code: Seq<char>, opening: int)
    requires
        e.credit_code@ == code,
        e.debit_code@ != code,
    ensures
        (t is Liability || t is Equity || t is Revenue) ==>
            card_running(seq![e], code, spec_balance_sign(t), opening) == opening + e.amount,
        (t is Asset || t is Expense || t is OffBalance) ==>
            card_running(seq![e], code, spec_balance_sign(t), opening) == opening - e.amount,
{
    let sign = spec_balance_sign(t);
    assert(seq![e].drop_last() =~= Seq::<CardEntry>::empty());
    assert(seq![e].last() == e);
    assert(card_running(Seq::<CardEntry>::empty(), code, sign, opening) == opening);
    assert(card_running(seq![e], code, sign, opening) == opening + card_delta(e, code, sign));
    assert(card_delta(e, code, sign) == -e.amount * sign);
    if sign == 1 {
        assert(-e.amount * sign == -e.amount);
    } else {
        assert(-e.amount * sign == e.amount);
    }
}

/// An entered opening balance is stored so that the account's balance sign
/// turns it back into the amount entered: a liability of 1000 is stored as
/// -1000, an asset of 1000 as 1000.
pub proof fn lemma_opening_stored_by_sign(t: AccountType, x: int)
    ensures
        spec_balance_sign(t) * natural_opening(t, x) == x,
        natural_opening(t, x) == spec_balance_sign(t) * x,
{
}

} // verus!
