use vstd::prelude::*;

use std::collections::VecDeque;

verus! {

/// What pagination needs of a descriptor: where it starts, how many rows a
/// page holds, and the direction.
pub struct PageInfo {
    pub cursor: Option<i64>,
    pub page_size: i64,
    pub desc: bool,
}

/// Cursors of the neighbouring pages; `None` where there is no such page.
/// `total` is reserved and always `None`.
#[derive(Debug, Clone, Copy, PartialEq, Eq, Structural)]
pub struct Pager {
    pub prev: Option<i64>,
    pub next: Option<i64>,
    pub total: Option<i64>,
}

/// A row that has an id.
pub trait Id {
    /// The id of the row; a verified implementation states it, and `id` must
    /// return it.
    open spec fn spec_id(&self) -> i64 {
        arbitrary()
    }

    fn id(&self) -> (r: i64)
        ensures
            r == self.spec_id(),
    ;
}

/// Where the page starts in the fetched rows: past the cursor row, when a
/// cursor was given and there is a row.
pub open spec fn page_lo(has_cursor: bool, n: int) -> int {
    if has_cursor && n > 0 {
        1
    } else {
        0
    }
}

/// Whether the fetched rows hold more than a page after the cursor row.
pub open spec fn page_has_more(has_cursor: bool, page_size: int, n: int) -> bool {
    n - page_lo(has_cursor, n) > page_size
}

/// Where the page ends in the fetched rows: before the look-ahead row, when
/// there is one.
pub open spec fn page_hi(has_cursor: bool, page_size: int, n: int) -> int {
    if page_has_more(has_cursor, page_size, n) && n - page_lo(has_cursor, n) > 0 {
        n - 1
    } else {
        n
    }
}

/// The pager for fetched rows with the given ids.
pub open spec fn pager_of(has_cursor: bool, page_size: int, ids: Seq<i64>) -> Pager {
    let n = ids.len() as int;
    let lo = page_lo(has_cursor, n);
    let hi = page_hi(has_cursor, page_size, n);
    Pager {
        prev: if has_cursor && lo < n {
            Some(ids[lo])
        } else {
            None
        },
        next: if page_has_more(has_cursor, page_size, n) && lo < hi {
            Some(ids[hi - 1])
        } else {
            None
        },
        total: None,
    }
}

/// The ids of a sequence of rows.
pub open spec fn ids_of<T: Id>(rows: Seq<T>) -> Seq<i64> {
    rows.map_values(|t: T| t.spec_id())
}

/// A descriptor that can be paged through.
pub trait Paginator: Sized {
    spec fn spec_cursor(&self) -> Option<i64>;

    spec fn spec_page_size(&self) -> i64;

    spec fn spec_desc(&self) -> bool;

    /// Trims the fetched rows to the page (the cursor row in front and the
    /// look-ahead row at the back go) and gives the neighbouring cursors.
    fn get_pager<T: Id>(&self, data: &mut VecDeque<T>) -> (r: Pager)
        ensures
            r == pager_of(self.spec_cursor() is Some, self.spec_page_size() as int, ids_of(old(data)@)),
            final(data)@ == old(data)@.subrange(
                page_lo(self.spec_cursor() is Some, old(data)@.len() as int),
                page_hi(self.spec_cursor() is Some, self.spec_page_size() as int, old(data)@.len() as int),
            ),
    ;

    /// The descriptor of the previous page, if the pager has one.
    fn prev_page(&self, pager: &Pager) -> (r: Option<Self>)
        ensures
            r is Some <==> pager.prev is Some,
            r matches Some(p) ==> p.spec_cursor() == pager.prev && p.spec_page_size()
                == self.spec_page_size() && p.spec_desc() == self.spec_desc(),
    ;

    /// The descriptor of the next page, if the pager has one.
    fn next_page(&self, pager: &Pager) -> (r: Option<Self>)
        ensures
            r is Some <==> pager.next is Some,
            r matches Some(p) ==> p.spec_cursor() == pager.next && p.spec_page_size()
                == self.spec_page_size() && p.spec_desc() == self.spec_desc(),
    ;
}

impl Paginator for PageInfo {
    open spec fn spec_cursor(&self) -> Option<i64> {
        self.cursor
    }

    open spec fn spec_page_size(&self) -> i64 {
        self.page_size
    }

    open spec fn spec_desc(&self) -> bool {
        self.desc
    }

    fn get_pager<T: Id>(&self, data: &mut VecDeque<T>) -> (r: Pager) {
        let ghost d0 = data@;
        let has_prev = self.cursor.is_some();
        let prev = if has_prev {
            data.pop_front();
            if data.len() > 0 {
                Some(data[0].id())
            } else {
                None
            }
        } else {
            None
        };
        let ghost d1 = data@;
        assert(d1 == d0.subrange(page_lo(has_prev, d0.len() as int), d0.len() as int));
        let has_next = self.page_size < 0 || data.len() as u64 > self.page_size as u64;
        let next = if has_next {
            data.pop_back();
            let n = data.len();
            if n > 0 {
                Some(data[n - 1].id())
            } else {
                None
            }
        } else {
            None
        };
        assert(data@ =~= d0.subrange(
            page_lo(has_prev, d0.len() as int),
            page_hi(has_prev, self.page_size as int, d0.len() as int),
        ));
        Pager { prev, next, total: None }
    }

    fn prev_page(&self, pager: &Pager) -> (r: Option<PageInfo>) {
        if pager.prev.is_some() {
            Some(PageInfo { cursor: pager.prev, page_size: self.page_size, desc: self.desc })
        } else {
            None
        }
    }

    fn next_page(&self, pager: &Pager) -> (r: Option<PageInfo>) {
        if pager.next.is_some() {
            Some(PageInfo { cursor: pager.next, page_size: self.page_size, desc: self.desc })
        } else {
            None
        }
    }
}

} // verus!
