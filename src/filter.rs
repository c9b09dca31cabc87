use vstd::prelude::*;

use std::collections::VecDeque;

use crate::error::Error;
use crate::pager::{ids_of, page_hi, page_lo, pager_of, Id, PageInfo, Pager, Paginator};
use crate::sql::{get_user_resource_cond, user_resource_cond};
use crate::status::{is_status_code, status_name, status_of_code, ReservationStatus};
use crate::text::{int_text, push_int};
use crate::traits::{Normalize, ToSql, Validator};

verus! {

/// Cursor-paginated read descriptor, ordered by id.
#[derive(Debug, Clone, PartialEq, Eq)]
pub struct ReservationFilter {
    /// Empty for any user.
    pub user_id: String,
    /// Empty for any resource.
    pub resource_id: String,
    /// Wire code of a `ReservationStatus`.
    pub status: i32,
    /// Id of the row the page starts at; absent for the first page.
    pub cursor: Option<i64>,
    pub page_size: i64,
    pub desc: bool,
}

/// Pagination cursors as carried in a filter response.
#[derive(Debug, Clone, Copy, PartialEq, Eq, Structural)]
pub struct FilterPager {
    pub prev: Option<i64>,
    pub next: Option<i64>,
    pub total: Option<i64>,
}

impl From<Pager> for FilterPager {
    fn from(value: Pager) -> (r: FilterPager) {
        FilterPager { prev: value.prev, next: value.next, total: value.total }
    }
}

impl vstd::std_specs::convert::FromSpecImpl<Pager> for FilterPager {
    open spec fn obeys_from_spec() -> bool {
        true
    }

    open spec fn from_spec(v: Pager) -> FilterPager {
        FilterPager { prev: v.prev, next: v.next, total: v.total }
    }
}

impl From<&FilterPager> for Pager {
    fn from(value: &FilterPager) -> (r: Pager) {
        Pager { prev: value.prev, next: value.next, total: value.total }
    }
}

impl vstd::std_specs::convert::FromSpecImpl<&FilterPager> for Pager {
    open spec fn obeys_from_spec() -> bool {
        true
    }

    open spec fn from_spec(v: &FilterPager) -> Pager {
        Pager { prev: v.prev, next: v.next, total: v.total }
    }
}

/// The outcome that validating a filter must give: page size in `10..=100`,
/// a non-negative cursor if any, and a known status, checked in that order.
pub open spec fn filter_check(f: ReservationFilter) -> Result<(), Error> {
    if f.page_size < 10 || f.page_size > 100 {
        Err(Error::InvalidPageSize(f.page_size))
    } else if f.cursor matches Some(c) && c < 0 {
        Err(Error::InvalidCursor(f.cursor.unwrap()))
    } else if !is_status_code(f.status) {
        Err(Error::InvalidStatus(f.status))
    } else {
        Ok(())
    }
}

/// A filter whose `Unknown` status is read as `Pending`.
pub open spec fn filter_normalized(f: ReservationFilter) -> ReservationFilter {
    if f.status == 0 {
        ReservationFilter { status: 1, ..f }
    } else {
        f
    }
}

/// The id bound of the cursor condition: the cursor, else the end of the
/// id range in the direction of travel.
pub open spec fn filter_cursor(f: ReservationFilter) -> i64 {
    match f.cursor {
        Some(c) => c,
        None => if f.desc {
            i64::MAX
        } else {
            0
        },
    }
}

/// How many rows a page fetches: the page, one look-ahead row, and the
/// cursor row itself when there is a cursor.
pub open spec fn filter_limit(f: ReservationFilter) -> int {
    f.page_size + 1 + if f.cursor is Some {
        1int
    } else {
        0int
    }
}

/// The SQL text of a filter.
pub open spec fn filter_sql(f: ReservationFilter) -> Seq<char> {
    "SELECT * FROM rsvp.reservations WHERE status = '"@ + status_name(
        status_of_code(f.status).unwrap(),
    ) + "'::rsvp.reservation_status AND "@ + (if f.desc {
        "id <= "@
    } else {
        "id >= "@
    }) + int_text(filter_cursor(f) as int) + " AND "@ + user_resource_cond(
        f.user_id@,
        f.resource_id@,
    ) + " ORDER BY id "@ + (if f.desc {
        "DESC"@
    } else {
        "ASC"@
    }) + " LIMIT "@ + int_text(filter_limit(f))
}

/// The descriptor of the page after the one a pager came from.
pub open spec fn filter_next(f: ReservationFilter, pager: FilterPager) -> Option<ReservationFilter> {
    if pager.next is Some {
        Some(ReservationFilter { cursor: pager.next, ..f })
    } else {
        None
    }
}

/// The pager for fetched rows with the given ids.
pub open spec fn filter_pager_of(f: ReservationFilter, ids: Seq<i64>) -> FilterPager {
    let p = pager_of(f.cursor is Some, f.page_size as int, ids);
    FilterPager { prev: p.prev, next: p.next, total: p.total }
}

impl Validator for ReservationFilter {
    open spec fn validation(&self) -> Result<(), Error> {
        filter_check(*self)
    }

    fn validate(&self) -> (r: Result<(), Error>) {
        if self.page_size < 10 || self.page_size > 100 {
            return Err(Error::InvalidPageSize(self.page_size));
        }
        if let Some(cursor) = self.cursor {
            if cursor < 0 {
                return Err(Error::InvalidCursor(cursor));
            }
        }
        if ReservationStatus::from_i32(self.status).is_none() {
            return Err(Error::InvalidStatus(self.status));
        }
        Ok(())
    }
}

impl Normalize for ReservationFilter {
    open spec fn normalized(&self) -> ReservationFilter {
        filter_normalized(*self)
    }

    fn do_normalize(&mut self) {
        if self.status == 0 {
            self.status = 1;
        }
    }
}

impl ToSql for ReservationFilter {
    open spec fn sql_ready(&self) -> bool {
        is_status_code(self.status) && self.page_size <= i64::MAX - 2
    }

    open spec fn sql(&self) -> Seq<char> {
        filter_sql(*self)
    }

    fn to_sql(&self) -> (r: String) {
        let middle_plus: i64 = if self.cursor.is_some() {
            1
        } else {
            0
        };
        let limit = self.page_size + 1 + middle_plus;
        let status = self.get_status();
        let mut s = String::from_str("SELECT * FROM rsvp.reservations WHERE status = '");
        s.append(status.to_string().as_str());
        s.append("'::rsvp.reservation_status AND ");
        if self.desc {
            s.append("id <= ");
        } else {
            s.append("id >= ");
        }
        push_int(&mut s, self.get_cursor());
        s.append(" AND ");
        s.append(get_user_resource_cond(self.user_id.as_str(), self.resource_id.as_str()).as_str());
        s.append(" ORDER BY id ");
        if self.desc {
            s.append("DESC");
        } else {
            s.append("ASC");
        }
        s.append(" LIMIT ");
        push_int(&mut s, limit);
        assert(s@ =~= filter_sql(*self));
        s
    }
}

impl ReservationFilter {
    /// The status the filter selects.
    pub fn get_status(&self) -> (r: ReservationStatus)
        requires
            is_status_code(self.status),
        ensures
            Some(r) == status_of_code(self.status),
    {
        ReservationStatus::from_i32(self.status).unwrap()
    }

    /// The id bound of the cursor condition.
    pub fn get_cursor(&self) -> (r: i64)
        ensures
            r == filter_cursor(*self),
    {
        match self.cursor {
            Some(c) => c,
            None => if self.desc {
                i64::MAX
            } else {
                0
            },
        }
    }

    /// Trims fetched rows to this page and gives the neighbouring cursors.
    pub fn get_pager<T: Id>(&self, data: &mut VecDeque<T>) -> (r: FilterPager)
        ensures
            r == filter_pager_of(*self, ids_of(old(data)@)),
            final(data)@ == old(data)@.subrange(
                page_lo(self.cursor is Some, old(data)@.len() as int),
                page_hi(self.cursor is Some, self.page_size as int, old(data)@.len() as int),
            ),
    {
        let page_info = self.page_info();
        let pager = page_info.get_pager(data);
        FilterPager::from(pager)
    }

    /// The filter for the page after the one `pager` came from.
    pub fn next_page(&self, pager: &FilterPager) -> (r: Option<ReservationFilter>)
        ensures
            r == filter_next(*self, *pager),
    {
        let page_info = self.page_info();
        let pager = Pager::from(pager);
        let page_info = page_info.next_page(&pager);
        match page_info {
            Some(pi) => Some(
                ReservationFilter {
                    user_id: self.user_id.clone(),
                    resource_id: self.resource_id.clone(),
                    status: self.status,
                    cursor: pi.cursor,
                    page_size: pi.page_size,
                    desc: pi.desc,
                },
            ),
            None => None,
        }
    }

    /// The pagination view of this filter.
    pub fn page_info(&self) -> (r: PageInfo)
        ensures
            r.cursor == self.cursor,
            r.page_size == self.page_size,
            r.desc == self.desc,
    {
        PageInfo { cursor: self.cursor, page_size: self.page_size, desc: self.desc }
    }
}

} // verus!

verus! {

/// Builds a `ReservationFilter`; unset fields take their defaults (page size
/// 10, no cursor, any user and resource, `Unknown` status, ascending).
#[derive(Debug, Clone)]
pub struct ReservationFilterBuilder {
    pub user_id: String,
    pub resource_id: String,
    pub status: i32,
    pub cursor: Option<i64>,
    pub page_size: i64,
    pub desc: bool,
}

/// The filter a builder holds, before validation.
pub open spec fn builder_filter(b: ReservationFilterBuilder) -> ReservationFilter {
    ReservationFilter {
        user_id: b.user_id,
        resource_id: b.resource_id,
        status: b.status,
        cursor: b.cursor,
        page_size: b.page_size,
        desc: b.desc,
    }
}

/// What building a filter gives: the normalized filter, or the validation error.
pub open spec fn filter_build(f: ReservationFilter) -> Result<ReservationFilter, Error> {
    match filter_check(f) {
        Ok(()) => Ok(filter_normalized(f)),
        Err(e) => Err(e),
    }
}

impl Default for ReservationFilterBuilder {
    fn default() -> (r: ReservationFilterBuilder)
        ensures
            r.user_id@.len() == 0,
            r.resource_id@.len() == 0,
            r.status == 0,
            r.cursor is None,
            r.page_size == 10,
            !r.desc,
    {
        ReservationFilterBuilder {
            user_id: String::new(),
            resource_id: String::new(),
            status: 0,
            cursor: None,
            page_size: 10,
            desc: false,
        }
    }
}

impl ReservationFilterBuilder {
    pub fn user_id(self, value: &str) -> (r: ReservationFilterBuilder)
        ensures
            r == (ReservationFilterBuilder { user_id: r.user_id, ..self }),
            r.user_id@ == value@,
    {
        ReservationFilterBuilder { user_id: String::from_str(value), ..self }
    }

    pub fn resource_id(self, value: &str) -> (r: ReservationFilterBuilder)
        ensures
            r == (ReservationFilterBuilder { resource_id: r.resource_id, ..self }),
            r.resource_id@ == value@,
    {
        ReservationFilterBuilder { resource_id: String::from_str(value), ..self }
    }

    pub fn status(self, value: i32) -> (r: ReservationFilterBuilder)
        ensures
            r == (ReservationFilterBuilder { status: value, ..self }),
    {
        ReservationFilterBuilder { status: value, ..self }
    }

    pub fn cursor(self, value: i64) -> (r: ReservationFilterBuilder)
        ensures
            r == (ReservationFilterBuilder { cursor: Some(value), ..self }),
    {
        ReservationFilterBuilder { cursor: Some(value), ..self }
    }

    pub fn page_size(self, value: i64) -> (r: ReservationFilterBuilder)
        ensures
            r == (ReservationFilterBuilder { page_size: value, ..self }),
    {
        ReservationFilterBuilder { page_size: value, ..self }
    }

    pub fn desc(self, value: bool) -> (r: ReservationFilterBuilder)
        ensures
            r == (ReservationFilterBuilder { desc: value, ..self }),
    {
        ReservationFilterBuilder { desc: value, ..self }
    }

    /// The validated, normalized filter.
    pub fn build(&self) -> (r: Result<ReservationFilter, Error>)
        ensures
            r == filter_build(builder_filter(*self)),
    {
        let mut filter = ReservationFilter {
            user_id: self.user_id.clone(),
            resource_id: self.resource_id.clone(),
            status: self.status,
            cursor: self.cursor,
            page_size: self.page_size,
            desc: self.desc,
        };
        match filter.normalize() {
            Ok(()) => Ok(filter),
            Err(e) => Err(e),
        }
    }
}

} // verus!
