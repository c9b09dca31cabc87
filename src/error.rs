use vstd::prelude::*;

use crate::text::{int_text, push_int};
use crate::time::Timestamp;

verus! {

/// The errors of the reservation service.
#[derive(Debug, Clone, PartialEq, Eq)]
pub enum Error {
    /// A storage failure that means nothing to the domain; holds its message.
    DbError(String),
    NotFound,
    ConfigReadError,
    ConfigParseError,
    /// An exclusion-constraint violation; holds the storage's detail text.
    ConflictReservation(String),
    InvalidTime,
    InvalidReservationId(i64),
    InvalidUserId(String),
    InvalidResourceId(String),
    InvalidPageSize(i64),
    InvalidCursor(i64),
    InvalidStatus(i32),
    Unknown,
}

/// The human-readable message of an error.
pub open spec fn error_text(e: Error) -> Seq<char> {
    match e {
        Error::DbError(m) => "Database error "@ + m@,
        Error::NotFound => "reservation not found"@,
        Error::ConfigReadError => "config file not found"@,
        Error::ConfigParseError => "config parse error"@,
        Error::ConflictReservation(d) => "Conflict reservation: "@ + d@,
        Error::InvalidTime => "invalid start or end time for the reservation"@,
        Error::InvalidReservationId(v) => "invalid reservation id "@ + int_text(v as int),
        Error::InvalidUserId(s) => "invalid user id "@ + s@,
        Error::InvalidResourceId(s) => "invalid resource id "@ + s@,
        Error::InvalidPageSize(v) => "invalid page size "@ + int_text(v as int),
        Error::InvalidCursor(v) => "invalid cursor "@ + int_text(v as int),
        Error::InvalidStatus(v) => "invalid reservation status "@ + int_text(v as int),
        Error::Unknown => "unknown error"@,
    }
}

/// The time window one side of a reservation conflict holds.
#[derive(Debug, Clone, PartialEq, Eq)]
pub struct ReservationWindow {
    pub rid: String,
    pub start: Timestamp,
    pub end: Timestamp,
}

/// The two reservations whose windows collide.
#[derive(Debug, Clone, PartialEq, Eq)]
pub struct ReservationConflict {
    pub a: ReservationWindow,
    pub b: ReservationWindow,
}

/// RPC status codes that errors are reported under.
#[derive(Debug, Clone, Copy, PartialEq, Eq, Structural)]
pub enum RpcCode {
    Internal,
    FailedPrecondition,
    InvalidArgument,
    NotFound,
    Unknown,
}

/// An RPC status: a code and a message.
#[derive(Debug, Clone, PartialEq, Eq)]
pub struct RpcStatus {
    pub code: RpcCode,
    pub message: String,
}

/// The RPC code that each kind of error maps to.
pub open spec fn rpc_code_of(e: Error) -> RpcCode {
    match e {
        Error::DbError(_) | Error::ConfigReadError | Error::ConfigParseError => RpcCode::Internal,
        Error::ConflictReservation(_) => RpcCode::FailedPrecondition,
        Error::InvalidTime
        | Error::InvalidReservationId(_)
        | Error::InvalidUserId(_)
        | Error::InvalidResourceId(_)
        | Error::InvalidPageSize(_)
        | Error::InvalidCursor(_)
        | Error::InvalidStatus(_) => RpcCode::InvalidArgument,
        Error::NotFound => RpcCode::NotFound,
        Error::Unknown => RpcCode::Unknown,
    }
}

/// The message that goes with the RPC status of an error.
pub open spec fn rpc_message_of(e: Error) -> Seq<char> {
    match e {
        Error::ConflictReservation(d) => "Conflict Reservation: "@ + d@,
        Error::NotFound => "No reservation found by the given condition"@,
        Error::Unknown => "Unknown error"@,
        _ => error_text(e),
    }
}

/// A storage failure, as plain values read off the driver's error.
#[derive(Debug, Clone, PartialEq, Eq)]
pub enum DbFailure {
    /// An error reported by the database server.
    Database {
        code: String,
        schema: Option<String>,
        table: Option<String>,
        detail: Option<String>,
        message: String,
    },
    /// A query that had to return a row returned none.
    RowNotFound,
    /// Any other failure; holds its message.
    Other(String),
}

/// Whether a server error is the reservations table's exclusion-constraint
/// violation (SQLSTATE 23P01 on `rsvp.reservations`).
pub open spec fn is_conflict(code: Seq<char>, schema: Option<String>, table: Option<String>) -> bool {
    &&& code == "23P01"@
    &&& schema matches Some(s) && s@ == "rsvp"@
    &&& table matches Some(t) && t@ == "reservations"@
}

/// The text of an optional string, empty when absent.
pub open spec fn text_or_empty(s: Option<String>) -> Seq<char> {
    match s {
        Some(v) => v@,
        None => Seq::empty(),
    }
}

/// Whether `e` is the domain error that the storage failure `f` translates into.
pub open spec fn translates_to(f: DbFailure, e: Error) -> bool {
    match f {
        DbFailure::Database { code, schema, table, detail, message } => {
            if is_conflict(code@, schema, table) {
                e matches Error::ConflictReservation(d) && d@ == text_or_empty(detail)
            } else {
                e == Error::DbError(message)
            }
        },
        DbFailure::RowNotFound => e == Error::NotFound,
        DbFailure::Other(m) => e == Error::DbError(m),
    }
}

fn str_eq(a: &str, b: &str) -> (r: bool)
    ensures
        r == (a@ == b@),
{
    let n = a.unicode_len();
    if n != b.unicode_len() {
        return false;
    }
    let mut i: usize = 0;
    while i < n
        invariant
            n == a@.len(),
            n == b@.len(),
            0 <= i <= n,
            forall|j: int| 0 <= j < i ==> a@[j] == b@[j],
        decreases n - i,
    {
        if a.get_char(i) != b.get_char(i) {
            return false;
        }
        i = i + 1;
    }
    assert(a@ =~= b@);
    true
}

fn opt_is(s: &Option<String>, lit: &str) -> (r: bool)
    ensures
        r == (s matches Some(v) && v@ == lit@),
{
    match s {
        Some(v) => str_eq(v.as_str(), lit),
        None => false,
    }
}

impl Error {
    /// Translates a storage failure into a domain error: the exclusion-constraint
    /// violation becomes `ConflictReservation` with the storage's detail text, a
    /// missing row becomes `NotFound`, anything else `DbError`.
    pub fn from_db(f: DbFailure) -> (r: Error)
        ensures
            translates_to(f, r),
    {
        match f {
            DbFailure::Database { code, schema, table, detail, message } => {
                let hit = str_eq(code.as_str(), "23P01") && opt_is(&schema, "rsvp") && opt_is(
                    &table,
                    "reservations",
                );
                if hit {
                    match detail {
                        Some(d) => Error::ConflictReservation(d),
                        None => Error::ConflictReservation(String::new()),
                    }
                } else {
                    Error::DbError(message)
                }
            },
            DbFailure::RowNotFound => Error::NotFound,
            DbFailure::Other(m) => Error::DbError(m),
        }
    }

    /// The human-readable message of this error.
    pub fn to_string(&self) -> (r: String)
        ensures
            r@ == error_text(*self),
    {
        match self {
            Error::DbError(m) => String::from_str("Database error ").concat(m.as_str()),
            Error::NotFound => String::from_str("reservation not found"),
            Error::ConfigReadError => String::from_str("config file not found"),
            Error::ConfigParseError => String::from_str("config parse error"),
            Error::ConflictReservation(d) => String::from_str("Conflict reservation: ").concat(
                d.as_str(),
            ),
            Error::InvalidTime => String::from_str("invalid start or end time for the reservation"),
            Error::InvalidReservationId(v) => {
                let mut s = String::from_str("invalid reservation id ");
                push_int(&mut s, *v);
                s
            },
            Error::InvalidUserId(u) => String::from_str("invalid user id ").concat(u.as_str()),
            Error::InvalidResourceId(u) => String::from_str("invalid resource id ").concat(
                u.as_str(),
            ),
            Error::InvalidPageSize(v) => {
                let mut s = String::from_str("invalid page size ");
                push_int(&mut s, *v);
                s
            },
            Error::InvalidCursor(v) => {
                let mut s = String::from_str("invalid cursor ");
                push_int(&mut s, *v);
                s
            },
            Error::InvalidStatus(v) => {
                let mut s = String::from_str("invalid reservation status ");
                push_int(&mut s, *v as i64);
                s
            },
            Error::Unknown => String::from_str("unknown error"),
        }
    }

    /// The RPC code this error is reported under.
    pub fn rpc_code(&self) -> (r: RpcCode)
        ensures
            r == rpc_code_of(*self),
    {
        match self {
            Error::DbError(_) | Error::ConfigReadError | Error::ConfigParseError => RpcCode::Internal,
            Error::ConflictReservation(_) => RpcCode::FailedPrecondition,
            Error::InvalidTime
            | Error::InvalidReservationId(_)
            | Error::InvalidUserId(_)
            | Error::InvalidResourceId(_)
            | Error::InvalidPageSize(_)
            | Error::InvalidCursor(_)
            | Error::InvalidStatus(_) => RpcCode::InvalidArgument,
            Error::NotFound => RpcCode::NotFound,
            Error::Unknown => RpcCode::Unknown,
        }
    }

    /// The RPC status this error is reported as.
    pub fn to_status(&self) -> (r: RpcStatus)
        ensures
            r.code == rpc_code_of(*self),
            r.message@ == rpc_message_of(*self),
    {
        let code = self.rpc_code();
        let message = match self {
            Error::ConflictReservation(d) => String::from_str("Conflict Reservation: ").concat(
                d.as_str(),
            ),
            Error::NotFound => String::from_str("No reservation found by the given condition"),
            Error::Unknown => String::from_str("Unknown error"),
            _ => self.to_string(),
        };
        RpcStatus { code, message }
    }
}

} // verus!
