use vstd::prelude::*;

use crate::error::Error;
use crate::pager::Id;
use crate::status::{status_code, ReservationStatus};
use crate::time::{range_check, Timespan, Timestamp};

verus! {

/// A claim on a resource for the half-open interval `[start, end)`.
#[derive(Debug, Clone, PartialEq, Eq)]
pub struct Reservation {
    /// Assigned by storage at insert; `0` until then.
    pub id: i64,
    pub user_id: String,
    pub resource_id: String,
    pub start: Option<Timestamp>,
    pub end: Option<Timestamp>,
    pub note: String,
    /// Wire code of a `ReservationStatus`.
    pub status: i32,
}

/// The outcome that validating a reservation must give: a user, a resource,
/// and both bounds with `start` strictly before `end`, checked in that order.
pub open spec fn reservation_check(r: Reservation) -> Result<(), Error> {
    if r.user_id@.len() == 0 {
        Err(Error::InvalidUserId(r.user_id))
    } else if r.resource_id@.len() == 0 {
        Err(Error::InvalidResourceId(r.resource_id))
    } else {
        range_check(r.start, r.end)
    }
}

impl Reservation {
    /// A new, not yet stored, pending reservation.
    pub fn new_pending(uid: &str, rid: &str, start: Timestamp, end: Timestamp, note: &str) -> (r:
        Reservation)
        ensures
            r.id == 0,
            r.user_id@ == uid@,
            r.resource_id@ == rid@,
            r.start == Some(start),
            r.end == Some(end),
            r.note@ == note@,
            r.status == status_code(ReservationStatus::Pending),
    {
        Reservation {
            id: 0,
            user_id: String::from_str(uid),
            resource_id: String::from_str(rid),
            start: Some(start),
            end: Some(end),
            note: String::from_str(note),
            status: ReservationStatus::Pending.as_i32(),
        }
    }

    /// Checks the user, the resource and the time bounds.
    pub fn validate(&self) -> (r: Result<(), Error>)
        ensures
            r == reservation_check(*self),
    {
        if self.user_id.as_str().is_empty() {
            return Err(Error::InvalidUserId(self.user_id.clone()));
        }
        if self.resource_id.as_str().is_empty() {
            return Err(Error::InvalidResourceId(self.resource_id.clone()));
        }
        match (&self.start, &self.end) {
            (Some(s), Some(e)) => if s.is_before(e) {
                Ok(())
            } else {
                Err(Error::InvalidTime)
            },
            _ => Err(Error::InvalidTime),
        }
    }

    /// The half-open interval the reservation occupies.
    pub fn get_timespan(&self) -> (r: Timespan)
        requires
            self.start is Some,
            self.end is Some,
        ensures
            r.start == self.start.unwrap(),
            r.end == self.end.unwrap(),
    {
        Timespan { start: self.start.unwrap(), end: self.end.unwrap() }
    }
}

impl Id for Reservation {
    open spec fn spec_id(&self) -> i64 {
        self.id
    }

    fn id(&self) -> (r: i64) {
        self.id
    }
}

} // verus!
