use vstd::prelude::*;

use crate::error::Error;
use crate::sql::{get_user_resource_cond, user_resource_cond};
use crate::status::{is_status_code, status_name, status_of_code, ReservationStatus};
use crate::time::{before, bound_text, get_time_string, Timestamp};
use crate::traits::{Normalize, ToSql, Validator};

verus! {

/// Time-range read descriptor, ordered by the start of each reservation.
#[derive(Debug, Clone, PartialEq, Eq)]
pub struct ReservationQuery {
    /// Empty for any user.
    pub user_id: String,
    /// Empty for any resource.
    pub resource_id: String,
    /// Wire code of a `ReservationStatus`.
    pub status: i32,
    /// Absent for an unbounded start.
    pub start: Option<Timestamp>,
    /// Absent for an unbounded end.
    pub end: Option<Timestamp>,
    pub desc: bool,
}

/// The outcome that validating a query must give: a known status, and
/// ordered bounds where both are present, checked in that order.
pub open spec fn query_check(q: ReservationQuery) -> Result<(), Error> {
    if !is_status_code(q.status) {
        Err(Error::InvalidStatus(q.status))
    } else if q.start is Some && q.end is Some && !before(q.start.unwrap(), q.end.unwrap()) {
        Err(Error::InvalidTime)
    } else {
        Ok(())
    }
}

/// A query whose `Unknown` status is read as `Pending`.
pub open spec fn query_normalized(q: ReservationQuery) -> ReservationQuery {
    if q.status == 0 {
        ReservationQuery { status: 1, ..q }
    } else {
        q
    }
}

/// The SQL text of a query, given the text of its two range bounds.
pub open spec fn query_sql(q: ReservationQuery, lower: Seq<char>, upper: Seq<char>) -> Seq<char> {
    "SELECT * FROM rsvp.reservations WHERE tstzrange('"@ + lower + "', '"@ + upper
        + "') @> timespan AND status = '"@ + status_name(status_of_code(q.status).unwrap())
        + "'::rsvp.reservation_status AND "@ + user_resource_cond(q.user_id@, q.resource_id@)
        + " ORDER BY lower(timespan) "@ + (if q.desc {
        "DESC"@
    } else {
        "ASC"@
    })
}

/// Whether both range bounds of a query can be written.
pub open spec fn bounds_writable(q: ReservationQuery) -> bool {
    bound_text(q.start, true) is Some && bound_text(q.end, false) is Some
}

impl Validator for ReservationQuery {
    open spec fn validation(&self) -> Result<(), Error> {
        query_check(*self)
    }

    fn validate(&self) -> (r: Result<(), Error>) {
        if ReservationStatus::from_i32(self.status).is_none() {
            return Err(Error::InvalidStatus(self.status));
        }
        if let (Some(start), Some(end)) = (&self.start, &self.end) {
            if !start.is_before(end) {
                return Err(Error::InvalidTime);
            }
        }
        Ok(())
    }
}

impl Normalize for ReservationQuery {
    open spec fn normalized(&self) -> ReservationQuery {
        query_normalized(*self)
    }

    fn do_normalize(&mut self) {
        if self.status == 0 {
            self.status = 1;
        }
    }
}

impl ToSql for ReservationQuery {
    open spec fn sql_ready(&self) -> bool {
        is_status_code(self.status) && bounds_writable(*self)
    }

    open spec fn sql(&self) -> Seq<char> {
        query_sql(
            *self,
            bound_text(self.start, true).unwrap(),
            bound_text(self.end, false).unwrap(),
        )
    }

    fn to_sql(&self) -> (r: String) {
        let lower = get_time_string(self.start.as_ref(), true).unwrap();
        let upper = get_time_string(self.end.as_ref(), false).unwrap();
        self.sql_with_bounds(lower.as_str(), upper.as_str())
    }
}

impl ReservationQuery {
    /// The status the query selects.
    pub fn get_status(&self) -> (r: ReservationStatus)
        requires
            is_status_code(self.status),
        ensures
            Some(r) == status_of_code(self.status),
    {
        ReservationStatus::from_i32(self.status).unwrap()
    }

    /// The SQL text of the query with the given text for its range bounds.
    pub fn sql_with_bounds(&self, lower: &str, upper: &str) -> (r: String)
        requires
            is_status_code(self.status),
        ensures
            r@ == query_sql(*self, lower@, upper@),
    {
        let status = self.get_status();
        let mut s = String::from_str("SELECT * FROM rsvp.reservations WHERE tstzrange('");
        s.append(lower);
        s.append("', '");
        s.append(upper);
        s.append("') @> timespan AND status = '");
        s.append(status.to_string().as_str());
        s.append("'::rsvp.reservation_status AND ");
        s.append(get_user_resource_cond(self.user_id.as_str(), self.resource_id.as_str()).as_str());
        s.append(" ORDER BY lower(timespan) ");
        if self.desc {
            s.append("DESC");
        } else {
            s.append("ASC");
        }
        assert(s@ =~= query_sql(*self, lower@, upper@));
        s
    }

    /// The SQL text of the query, or `InvalidTime` where a bound is an
    /// instant that cannot be written.
    pub fn try_to_sql(&self) -> (r: Result<String, Error>)
        requires
            is_status_code(self.status),
        ensures
            r matches Ok(s) ==> bounds_writable(*self) && s@ == self.sql(),
            r matches Err(e) ==> !bounds_writable(*self) && e == Error::InvalidTime,
    {
        let lower = get_time_string(self.start.as_ref(), true);
        let upper = get_time_string(self.end.as_ref(), false);
        if lower.is_none() || upper.is_none() {
            return Err(Error::InvalidTime);
        }
        Ok(self.to_sql())
    }
}

/// Builds a `ReservationQuery`; unset fields take their defaults (unbounded
/// range, any user and resource, `Unknown` status, ascending).
#[derive(Debug, Clone)]
pub struct ReservationQueryBuilder {
    pub user_id: String,
    pub resource_id: String,
    pub status: i32,
    pub start: Option<Timestamp>,
    pub end: Option<Timestamp>,
    pub desc: bool,
}

/// The query a builder holds, before validation.
pub open spec fn builder_query(b: ReservationQueryBuilder) -> ReservationQuery {
    ReservationQuery {
        user_id: b.user_id,
        resource_id: b.resource_id,
        status: b.status,
        start: b.start,
        end: b.end,
        desc: b.desc,
    }
}

/// What building a query gives: the normalized query, or the validation error.
pub open spec fn query_build(q: ReservationQuery) -> Result<ReservationQuery, Error> {
    match query_check(q) {
        Ok(()) => Ok(query_normalized(q)),
        Err(e) => Err(e),
    }
}

impl Default for ReservationQueryBuilder {
    fn default() -> (r: ReservationQueryBuilder)
        ensures
            r.user_id@.len() == 0,
            r.resource_id@.len() == 0,
            r.status == 0,
            r.start is None,
            r.end is None,
            !r.desc,
    {
        ReservationQueryBuilder {
            user_id: String::new(),
            resource_id: String::new(),
            status: 0,
            start: None,
            end: None,
            desc: false,
        }
    }
}

impl ReservationQueryBuilder {
    pub fn user_id(self, value: &str) -> (r: ReservationQueryBuilder)
        ensures
            r == (ReservationQueryBuilder { user_id: r.user_id, ..self }),
            r.user_id@ == value@,
    {
        ReservationQueryBuilder { user_id: String::from_str(value), ..self }
    }

    pub fn resource_id(self, value: &str) -> (r: ReservationQueryBuilder)
        ensures
            r == (ReservationQueryBuilder { resource_id: r.resource_id, ..self }),
            r.resource_id@ == value@,
    {
        ReservationQueryBuilder { resource_id: String::from_str(value), ..self }
    }

    pub fn status(self, value: i32) -> (r: ReservationQueryBuilder)
        ensures
            r == (ReservationQueryBuilder { status: value, ..self }),
    {
        ReservationQueryBuilder { status: value, ..self }
    }

    pub fn start(self, value: Timestamp) -> (r: ReservationQueryBuilder)
        ensures
            r == (ReservationQueryBuilder { start: Some(value), ..self }),
    {
        ReservationQueryBuilder { start: Some(value), ..self }
    }

    pub fn end(self, value: Timestamp) -> (r: ReservationQueryBuilder)
        ensures
            r == (ReservationQueryBuilder { end: Some(value), ..self }),
    {
        ReservationQueryBuilder { end: Some(value), ..self }
    }

    pub fn desc(self, value: bool) -> (r: ReservationQueryBuilder)
        ensures
            r == (ReservationQueryBuilder { desc: value, ..self }),
    {
        ReservationQueryBuilder { desc: value, ..self }
    }

    /// The validated, normalized query.
    pub fn build(&self) -> (r: Result<ReservationQuery, Error>)
        ensures
            r == query_build(builder_query(*self)),
    {
        let mut query = ReservationQuery {
            user_id: self.user_id.clone(),
            resource_id: self.resource_id.clone(),
            status: self.status,
            start: self.start,
            end: self.end,
            desc: self.desc,
        };
        match query.normalize() {
            Ok(()) => Ok(query),
            Err(e) => Err(e),
        }
    }
}

} // verus!
