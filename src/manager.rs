use vstd::prelude::*;

use std::collections::VecDeque;

use crate::error::Error;
use crate::filter::{filter_check, filter_normalized, filter_pager_of, filter_sql, FilterPager, ReservationFilter};
use crate::pager::{ids_of, page_hi, page_lo, Id};
use crate::query::{query_check, query_normalized, ReservationQuery};
use crate::reservation::{reservation_check, Reservation};
use crate::status::{status_code, status_name, status_of_code, ReservationStatus};
use crate::time::{Timespan, Timestamp};
use crate::traits::{Normalize, ToSql};

verus! {

/// The string, or `None` when it is empty.
pub fn string_to_opt(s: &str) -> (r: Option<String>)
    ensures
        r is None <==> s@.len() == 0,
        r matches Some(v) ==> v@ == s@,
{
    if s.is_empty() {
        None
    } else {
        Some(String::from_str(s))
    }
}

/// The status a reservation is stored with: its own when it is `Pending`,
/// `Confirmed` or `Blocked`, else `Pending`.
pub open spec fn stored_status(code: i32) -> ReservationStatus {
    match status_of_code(code) {
        Some(ReservationStatus::Unknown) | None => ReservationStatus::Pending,
        Some(s) => s,
    }
}

/// What an insert of a new reservation binds.
#[derive(Debug, Clone, PartialEq, Eq)]
pub struct ReserveParams {
    /// The reservation as it is stored (its status rewritten where needed).
    pub reservation: Reservation,
    pub timespan: Timespan,
    /// Name of the stored status.
    pub status: String,
}

/// Validates a new reservation and gives what its insert binds; no insert is
/// to be made on an error.
pub fn reserve_plan(rsvp: Reservation) -> (r: Result<ReserveParams, Error>)
    ensures
        reservation_check(rsvp) is Err <==> r is Err,
        r matches Err(e) ==> reservation_check(rsvp) == Err::<(), Error>(e),
        r matches Ok(p) ==> {
            &&& p.reservation == (Reservation {
                status: status_code(stored_status(rsvp.status)),
                ..rsvp
            })
            &&& p.timespan.start == rsvp.start.unwrap()
            &&& p.timespan.end == rsvp.end.unwrap()
            &&& p.status@ == status_name(stored_status(rsvp.status))
        },
{
    match rsvp.validate() {
        Ok(()) => {},
        Err(e) => {
            return Err(e);
        },
    }
    let timespan = rsvp.get_timespan();
    let status = match ReservationStatus::from_i32(rsvp.status) {
        Some(ReservationStatus::Unknown) | None => ReservationStatus::Pending,
        Some(s) => s,
    };
    let status_text = status.to_string();
    let reservation = Reservation { status: status.as_i32(), ..rsvp };
    Ok(ReserveParams { reservation, timespan, status: status_text })
}

/// What a call of the stored query function binds.
#[derive(Debug, Clone, PartialEq, Eq)]
pub struct QueryParams {
    pub user_id: Option<String>,
    pub resource_id: Option<String>,
    pub start: Option<Timestamp>,
    pub end: Option<Timestamp>,
    /// Name of the selected status.
    pub status: String,
    pub desc: bool,
}

/// Validates and normalizes a query and gives what the stored query function
/// binds.
pub fn query_plan(query: ReservationQuery) -> (r: Result<QueryParams, Error>)
    ensures
        query_check(query) is Err <==> r is Err,
        r matches Err(e) ==> query_check(query) == Err::<(), Error>(e),
        r matches Ok(p) ==> {
            &&& p.user_id matches Some(u) ==> u@ == query.user_id@
            &&& p.user_id is None <==> query.user_id@.len() == 0
            &&& p.resource_id matches Some(u) ==> u@ == query.resource_id@
            &&& p.resource_id is None <==> query.resource_id@.len() == 0
            &&& p.start == query.start
            &&& p.end == query.end
            &&& p.status@ == status_name(status_of_code(query_normalized(query).status).unwrap())
            &&& p.desc == query.desc
        },
{
    let mut q = query;
    match q.normalize() {
        Ok(()) => {},
        Err(e) => {
            return Err(e);
        },
    }
    let status = q.get_status();
    Ok(
        QueryParams {
            user_id: string_to_opt(q.user_id.as_str()),
            resource_id: string_to_opt(q.resource_id.as_str()),
            start: q.start,
            end: q.end,
            status: status.to_string(),
            desc: q.desc,
        },
    )
}

/// Validates and normalizes a filter and gives it with the SQL that fetches
/// its page.
pub fn filter_plan(filter: ReservationFilter) -> (r: Result<(ReservationFilter, String), Error>)
    ensures
        filter_check(filter) is Err <==> r is Err,
        r matches Err(e) ==> filter_check(filter) == Err::<(), Error>(e),
        r matches Ok(p) ==> p.0 == filter_normalized(filter) && p.1@ == filter_sql(p.0),
{
    let mut f = filter;
    match f.normalize() {
        Ok(()) => {},
        Err(e) => {
            return Err(e);
        },
    }
    let sql = f.to_sql();
    Ok((f, sql))
}

/// Turns the rows fetched for a filter into its page and pager.
pub fn filter_page<T: Id>(filter: &ReservationFilter, rows: Vec<T>) -> (r: (FilterPager, Vec<T>))
    ensures
        r.0 == filter_pager_of(*filter, ids_of(rows@)),
        r.1@ == rows@.subrange(
            page_lo(filter.cursor is Some, rows@.len() as int),
            page_hi(filter.cursor is Some, filter.page_size as int, rows@.len() as int),
        ),
{
    let ghost all = rows@;
    let mut rows = rows;
    let mut data: VecDeque<T> = VecDeque::new();
    while rows.len() > 0
        invariant
            all == rows@ + data@,
        decreases rows.len(),
    {
        let x = rows.pop().unwrap();
        data.push_front(x);
        assert(all =~= rows@ + data@);
    }
    assert(data@ =~= all);
    let pager = filter.get_pager(&mut data);
    let ghost page = data@;
    let mut out: Vec<T> = Vec::new();
    while data.len() > 0
        invariant
            page == out@ + data@,
        decreases data.len(),
    {
        let x = data.pop_front().unwrap();
        out.push(x);
        assert(page =~= out@ + data@);
    }
    assert(out@ =~= page);
    (pager, out)
}

} // verus!
