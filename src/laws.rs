use vstd::prelude::*;

use crate::filter::{
    filter_check, filter_cursor, filter_limit, filter_next, filter_normalized, filter_pager_of,
    FilterPager, ReservationFilter,
};
use crate::pager::{page_hi, page_lo};
use crate::query::{query_check, query_normalized, ReservationQuery};
use crate::traits::ToSql;

verus! {

/// Whether id `a` comes before id `b` in the direction of travel.
pub open spec fn precedes(a: i64, b: i64, desc: bool) -> bool {
    if desc {
        a > b
    } else {
        a < b
    }
}

/// Whether ids are strictly ordered in the direction of travel, as the
/// filter's `ORDER BY id` returns them.
pub open spec fn ordered(ids: Seq<i64>, desc: bool) -> bool {
    forall|i: int, j: int| 0 <= i < j < ids.len() ==> precedes(ids[i], ids[j], desc)
}

/// Whether a row id meets a filter's cursor condition.
pub open spec fn within_cursor(f: ReservationFilter, id: i64) -> bool {
    if f.desc {
        id <= filter_cursor(f)
    } else {
        id >= filter_cursor(f)
    }
}

/// At most the first `n` items.
pub open spec fn first_n(s: Seq<i64>, n: int) -> Seq<i64> {
    if n < s.len() {
        s.subrange(0, n)
    } else {
        s
    }
}

/// The ids that the filter's SQL fetches, where `rows` are the ids of all rows
/// matching its status, user and resource, in the order of the SQL.
pub open spec fn fetched(rows: Seq<i64>, f: ReservationFilter) -> Seq<i64> {
    first_n(rows.filter(|id: i64| within_cursor(f, id)), filter_limit(f))
}

/// The ids on the page that a filter gives.
pub open spec fn page_of(rows: Seq<i64>, f: ReservationFilter) -> Seq<i64> {
    let d = fetched(rows, f);
    d.subrange(
        page_lo(f.cursor is Some, d.len() as int),
        page_hi(f.cursor is Some, f.page_size as int, d.len() as int),
    )
}

/// The pager that comes with the page a filter gives.
pub open spec fn pager_at(rows: Seq<i64>, f: ReservationFilter) -> FilterPager {
    filter_pager_of(f, fetched(rows, f))
}

/// The filter of page `k` reached from `first` by following `next_page`.
pub open spec fn nth_page(rows: Seq<i64>, first: ReservationFilter, k: nat) -> Option<
    ReservationFilter,
>
    decreases k,
{
    if k == 0 {
        Some(first)
    } else {
        match nth_page(rows, first, (k - 1) as nat) {
            Some(g) => filter_next(g, pager_at(rows, g)),
            None => None,
        }
    }
}

pub open spec fn min_int(a: int, b: int) -> int {
    if a < b {
        a
    } else {
        b
    }
}

proof fn lemma_filter_suffix(rows: Seq<i64>, p: spec_fn(i64) -> bool, m: int)
    requires
        0 <= m <= rows.len(),
        forall|i: int| 0 <= i < m ==> !p(rows[i]),
        forall|i: int| m <= i < rows.len() ==> p(rows[i]),
    ensures
        rows.filter(p) == rows.subrange(m, rows.len() as int),
    decreases rows.len(),
{
    reveal(Seq::filter);
    let n = rows.len() as int;
    if n == 0 {
        assert(rows.subrange(0, 0) =~= rows);
    } else {
        let init = rows.drop_last();
        assert(forall|i: int| 0 <= i < n - 1 ==> init[i] == rows[i]);
        assert(rows.last() == rows[n - 1]);
        if m == n {
            lemma_filter_suffix(init, p, n - 1);
            assert(!p(rows.last()));
            assert(rows.filter(p) == init.filter(p));
            assert(rows.subrange(m, n) =~= init.subrange(n - 1, n - 1));
        } else {
            lemma_filter_suffix(init, p, m);
            assert(p(rows.last()));
            assert(rows.filter(p) == init.filter(p).push(rows.last()));
            assert(init.subrange(m, n - 1).push(rows.last()) =~= rows.subrange(m, n));
        }
    }
}

/// The filter of page `k`: the first one, or the first one with its cursor at
/// the last row of page `k - 1`.
spec fn kth_filter(rows: Seq<i64>, first: ReservationFilter, k: nat) -> ReservationFilter {
    if k == 0 {
        first
    } else {
        ReservationFilter { cursor: Some(rows[k * first.page_size - 1]), ..first }
    }
}

spec fn paging_setup(rows: Seq<i64>, first: ReservationFilter) -> bool {
    &&& filter_check(first) is Ok
    &&& first.cursor is None
    &&& ordered(rows, first.desc)
    &&& forall|i: int| 0 <= i < rows.len() ==> rows[i] >= 0
}

proof fn lemma_page_shape(rows: Seq<i64>, first: ReservationFilter, j: nat)
    requires
        paging_setup(rows, first),
        j == 0 || j * first.page_size < rows.len(),
    ensures
        ({
            let g = kth_filter(rows, first, j);
            let kk = first.page_size as int;
            let n = rows.len() as int;
            &&& page_of(rows, g) == rows.subrange(j * kk, min_int(n, (j + 1) * kk))
            &&& pager_at(rows, g).prev == (if j == 0 {
                None
            } else {
                Some(rows[j * kk])
            })
            &&& pager_at(rows, g).next == (if (j + 1) * kk < n {
                Some(rows[(j + 1) * kk - 1])
            } else {
                None
            })
        }),
{
    let g = kth_filter(rows, first, j);
    let kk = first.page_size as int;
    let n = rows.len() as int;
    let p = |id: i64| within_cursor(g, id);
    assert((j + 1) * kk == j * kk + kk) by (nonlinear_arith);
    if j == 0 {
        assert(j * kk == 0) by (nonlinear_arith)
            requires
                j == 0,
        ;
        lemma_filter_suffix(rows, p, 0);
        assert(rows.subrange(0, n) =~= rows);
        let d = fetched(rows, g);
        assert(filter_limit(g) == kk + 1);
        if n > kk {
            assert(d =~= rows.subrange(0, kk + 1));
            assert(d.subrange(0, kk) =~= rows.subrange(0, kk));
        } else {
            assert(d =~= rows);
            assert(d.subrange(0, n) =~= rows.subrange(0, n));
        }
    } else {
        assert(j * kk >= kk) by (nonlinear_arith)
            requires
                j >= 1,
                kk >= 10,
        ;
        let c = j * kk - 1;
        assert forall|i: int| 0 <= i < c implies !p(rows[i]) by {
            assert(precedes(rows[i], rows[c], g.desc));
        }
        assert forall|i: int| c <= i < n implies p(rows[i]) by {
            if i > c {
                assert(precedes(rows[c], rows[i], g.desc));
            }
        }
        lemma_filter_suffix(rows, p, c);
        let d = fetched(rows, g);
        assert(filter_limit(g) == kk + 2);
        if (j + 1) * kk < n {
            assert(d =~= rows.subrange(c, c + kk + 2));
            assert(d.subrange(1, kk + 1) =~= rows.subrange(j * kk, (j + 1) * kk));
        } else {
            assert(d =~= rows.subrange(c, n));
            assert(d.subrange(1, n - c) =~= rows.subrange(j * kk, n));
        }
    }
}

proof fn lemma_nth_page(rows: Seq<i64>, first: ReservationFilter, k: nat)
    requires
        paging_setup(rows, first),
        k == 0 || k * first.page_size < rows.len(),
    ensures
        nth_page(rows, first, k) == Some(kth_filter(rows, first, k)),
    decreases k,
{
    if k > 0 {
        let kk = first.page_size as int;
        let j = (k - 1) as nat;
        assert(j * kk <= k * kk) by (nonlinear_arith)
            requires
                j + 1 == k,
                kk >= 10,
        ;
        assert(k * kk == j * kk + kk) by (nonlinear_arith)
            requires
                j + 1 == k,
        ;
        lemma_nth_page(rows, first, j);
        lemma_page_shape(rows, first, j);
        let g = kth_filter(rows, first, j);
        assert(filter_next(g, pager_at(rows, g)) =~= Some(kth_filter(rows, first, k)));
    }
}

/// Paging through a filter's matches with `next_page`, starting without a
/// cursor, visits every matching row exactly once and in id order: page `k`
/// holds exactly the rows `k * page_size .. min(N, (k + 1) * page_size)` of the
/// `N` matching rows; each page after the first has `prev` set (to its first
/// row); `next` is set on exactly the pages before the last; and there is no
/// page after the last.
pub proof fn lemma_paging_visits_each_row_once(
    rows: Seq<i64>,
    first: ReservationFilter,
    k: nat,
)
    requires
        filter_check(first) is Ok,
        first.cursor is None,
        ordered(rows, first.desc),
        forall|i: int| 0 <= i < rows.len() ==> rows[i] >= 0,
    ensures
        (k == 0 || k * first.page_size < rows.len()) ==> ({
            let kk = first.page_size as int;
            let n = rows.len() as int;
            &&& nth_page(rows, first, k) is Some
            &&& page_of(rows, nth_page(rows, first, k).unwrap()) == rows.subrange(
                k * kk,
                min_int(n, (k + 1) * kk),
            )
            &&& (pager_at(rows, nth_page(rows, first, k).unwrap()).prev is Some <==> k > 0)
            &&& (pager_at(rows, nth_page(rows, first, k).unwrap()).next is Some <==> (k + 1) * kk
                < n)
        }),
        (k >= 1 && ((k - 1) == 0 || (k - 1) * first.page_size < rows.len()) && k * first.page_size
            >= rows.len()) ==> nth_page(rows, first, k) is None,
{
    let kk = first.page_size as int;
    if k == 0 || k * kk < rows.len() {
        lemma_nth_page(rows, first, k);
        lemma_page_shape(rows, first, k);
    }
    if k >= 1 && ((k - 1) == 0 || (k - 1) * kk < rows.len()) && k * kk >= rows.len() {
        let j = (k - 1) as nat;
        assert(k * kk == j * kk + kk) by (nonlinear_arith)
            requires
                j + 1 == k,
        ;
        lemma_nth_page(rows, first, j);
        lemma_page_shape(rows, first, j);
    }
}

/// SQL generation is pure: equal descriptors give identical SQL text.
pub proof fn lemma_sql_is_pure(
    f1: ReservationFilter,
    f2: ReservationFilter,
    q1: ReservationQuery,
    q2: ReservationQuery,
)
    requires
        f1 == f2,
        q1 == q2,
    ensures
        f1.sql() == f2.sql(),
        q1.sql() == q2.sql(),
{
}

/// Normalization is idempotent, and a normalized filter or query still validates.
pub proof fn lemma_normalize_idempotent(f: ReservationFilter, q: ReservationQuery)
    ensures
        filter_normalized(filter_normalized(f)) == filter_normalized(f),
        query_normalized(query_normalized(q)) == query_normalized(q),
        filter_check(f) is Ok ==> filter_check(filter_normalized(f)) is Ok,
        query_check(q) is Ok ==> query_check(query_normalized(q)) is Ok,
{
}

} // verus!
