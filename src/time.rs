use vstd::prelude::*;

use crate::error::Error;

verus! {

/// An instant: seconds and nanoseconds since the Unix epoch, in UTC.
#[derive(Debug, Clone, Copy, PartialEq, Eq, Structural)]
pub struct Timestamp {
    pub seconds: i64,
    pub nanos: i32,
}

/// Whether instant `a` comes strictly before instant `b`.
pub open spec fn before(a: Timestamp, b: Timestamp) -> bool {
    a.seconds < b.seconds || (a.seconds == b.seconds && a.nanos < b.nanos)
}

impl Timestamp {
    /// Whether this instant comes strictly before `other`.
    pub fn is_before(&self, other: &Timestamp) -> (r: bool)
        ensures
            r == before(*self, *other),
    {
        self.seconds < other.seconds || (self.seconds == other.seconds && self.nanos < other.nanos)
    }
}

/// The half-open interval `[start, end)` that a reservation occupies.
#[derive(Debug, Clone, Copy, PartialEq, Eq, Structural)]
pub struct Timespan {
    /// Included lower bound.
    pub start: Timestamp,
    /// Excluded upper bound.
    pub end: Timestamp,
}

/// The instant behind an optional reference.
pub open spec fn opt_ts(o: Option<&Timestamp>) -> Option<Timestamp> {
    match o {
        Some(t) => Some(*t),
        None => None,
    }
}

/// The outcome of checking a pair of optional bounds: both present and
/// strictly ordered.
pub open spec fn range_check(start: Option<Timestamp>, end: Option<Timestamp>) -> Result<(), Error> {
    match (start, end) {
        (Some(s), Some(e)) => if before(s, e) {
            Ok(())
        } else {
            Err(Error::InvalidTime)
        },
        _ => Err(Error::InvalidTime),
    }
}

/// Checks that both bounds are present and that `start` comes before `end`.
pub fn validate_range(start: Option<&Timestamp>, end: Option<&Timestamp>) -> (r: Result<(), Error>)
    ensures
        r == range_check(opt_ts(start), opt_ts(end)),
{
    match (start, end) {
        (Some(s), Some(e)) => if s.is_before(e) {
            Ok(())
        } else {
            Err(Error::InvalidTime)
        },
        _ => Err(Error::InvalidTime),
    }
}

/// The half-open span between two present bounds.
pub fn get_timespan(start: Option<&Timestamp>, end: Option<&Timestamp>) -> (r: Timespan)
    requires
        start is Some,
        end is Some,
    ensures
        r.start == *start.unwrap(),
        r.end == *end.unwrap(),
{
    Timespan { start: *start.unwrap(), end: *end.unwrap() }
}

/// The RFC 3339 text of an instant in UTC (`+00:00` offset), or `None` where
/// the instant cannot be represented (out of range, or invalid nanoseconds).
pub uninterp spec fn utc_rfc3339(seconds: i64, nanos: i32) -> Option<Seq<char>>;

/// Relies on chrono's `DateTime::<Utc>::from_timestamp` (which gives `None` for
/// out-of-range seconds or invalid nanoseconds) and `DateTime::to_rfc3339`
/// (the instant written in RFC 3339 with the UTC offset); the text depends on
/// the two numbers alone.
#[verifier::external_body]
fn rfc3339_text(seconds: i64, nanos: i32) -> (r: Option<String>)
    ensures
        r matches Some(s) ==> utc_rfc3339(seconds, nanos) == Some(s@),
        r is None ==> utc_rfc3339(seconds, nanos) is None,
{
    match chrono::DateTime::from_timestamp(seconds, nanos as u32) {
        Some(t) => Some(t.to_rfc3339()),
        None => None,
    }
}

/// The text of a range bound in SQL: the instant's RFC 3339 text, or
/// `-infinity` / `infinity` for an absent lower / upper bound.
pub open spec fn bound_text(ts: Option<Timestamp>, lower: bool) -> Option<Seq<char>> {
    match ts {
        Some(t) => utc_rfc3339(t.seconds, t.nanos),
        None => if lower {
            Some("-infinity"@)
        } else {
            Some("infinity"@)
        },
    }
}

/// Writes a range bound for SQL; `None` where the instant cannot be written.
pub fn get_time_string(ts: Option<&Timestamp>, lower: bool) -> (r: Option<String>)
    ensures
        r matches Some(s) ==> bound_text(opt_ts(ts), lower) == Some(s@),
        r is None ==> bound_text(opt_ts(ts), lower) is None,
{
    match ts {
        Some(t) => rfc3339_text(t.seconds, t.nanos),
        None => if lower {
            Some(String::from_str("-infinity"))
        } else {
            Some(String::from_str("infinity"))
        },
    }
}

} // verus!
