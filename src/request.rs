use vstd::prelude::*;

use crate::filter::ReservationFilter;
use crate::query::ReservationQuery;
use crate::reservation::Reservation;

verus! {

/// Request to make a reservation.
#[derive(Debug, Clone, PartialEq, Eq)]
pub struct ReserveRequest {
    pub reservation: Option<Reservation>,
}

/// Request for one page of reservations.
#[derive(Debug, Clone, PartialEq, Eq)]
pub struct FilterRequest {
    pub filter: Option<ReservationFilter>,
}

/// Request for a stream of reservations in a time range.
#[derive(Debug, Clone, PartialEq, Eq)]
pub struct QueryRequest {
    pub query: Option<ReservationQuery>,
}

/// Request to confirm a pending reservation.
#[derive(Debug, Clone, Copy, PartialEq, Eq, Structural)]
pub struct ConfirmRequest {
    pub id: i64,
}

/// Request to read a reservation.
#[derive(Debug, Clone, Copy, PartialEq, Eq, Structural)]
pub struct GetRequest {
    pub id: i64,
}

/// Request to cancel (delete) a reservation.
#[derive(Debug, Clone, Copy, PartialEq, Eq, Structural)]
pub struct CancelRequest {
    pub id: i64,
}

/// Request to change the note of a reservation.
#[derive(Debug, Clone, PartialEq, Eq)]
pub struct UpdateRequest {
    pub id: i64,
    pub note: String,
}

impl ReserveRequest {
    pub fn new(value: Reservation) -> (r: ReserveRequest)
        ensures
            r.reservation == Some(value),
    {
        ReserveRequest { reservation: Some(value) }
    }
}

impl FilterRequest {
    pub fn new(value: ReservationFilter) -> (r: FilterRequest)
        ensures
            r.filter == Some(value),
    {
        FilterRequest { filter: Some(value) }
    }
}

impl QueryRequest {
    pub fn new(value: ReservationQuery) -> (r: QueryRequest)
        ensures
            r.query == Some(value),
    {
        QueryRequest { query: Some(value) }
    }
}

impl ConfirmRequest {
    pub fn new(id: i64) -> (r: ConfirmRequest)
        ensures
            r.id == id,
    {
        ConfirmRequest { id }
    }
}

impl GetRequest {
    pub fn new(id: i64) -> (r: GetRequest)
        ensures
            r.id == id,
    {
        GetRequest { id }
    }
}

impl CancelRequest {
    pub fn new(id: i64) -> (r: CancelRequest)
        ensures
            r.id == id,
    {
        CancelRequest { id }
    }
}

impl UpdateRequest {
    pub fn new(id: i64, note: String) -> (r: UpdateRequest)
        ensures
            r.id == id,
            r.note == note,
    {
        UpdateRequest { id, note }
    }
}

} // verus!
