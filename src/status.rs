use vstd::prelude::*;

verus! {

/// Status of a reservation as carried on the wire (an `i32` there).
#[derive(Debug, Clone, Copy, PartialEq, Eq, Structural)]
pub enum ReservationStatus {
    Unknown,
    Pending,
    Confirmed,
    Blocked,
}

/// Status of a reservation as stored in the database enum type.
#[derive(Debug, Clone, Copy, PartialEq, Eq, Structural)]
pub enum RsvpStatus {
    Unknown,
    Pending,
    Confirmed,
    Blocked,
}

/// The wire code of each status.
pub open spec fn status_code(s: ReservationStatus) -> i32 {
    match s {
        ReservationStatus::Unknown => 0,
        ReservationStatus::Pending => 1,
        ReservationStatus::Confirmed => 2,
        ReservationStatus::Blocked => 3,
    }
}

/// Whether a wire code names a status.
pub open spec fn is_status_code(v: i32) -> bool {
    0 <= v <= 3
}

/// The status named by a wire code.
pub open spec fn status_of_code(v: i32) -> Option<ReservationStatus> {
    if v == 0 {
        Some(ReservationStatus::Unknown)
    } else if v == 1 {
        Some(ReservationStatus::Pending)
    } else if v == 2 {
        Some(ReservationStatus::Confirmed)
    } else if v == 3 {
        Some(ReservationStatus::Blocked)
    } else {
        None
    }
}

/// The lowercase name of a status, as the database spells it.
pub open spec fn status_name(s: ReservationStatus) -> Seq<char> {
    match s {
        ReservationStatus::Unknown => seq!['u', 'n', 'k', 'n', 'o', 'w', 'n'],
        ReservationStatus::Pending => seq!['p', 'e', 'n', 'd', 'i', 'n', 'g'],
        ReservationStatus::Confirmed => seq!['c', 'o', 'n', 'f', 'i', 'r', 'm', 'e', 'd'],
        ReservationStatus::Blocked => seq!['b', 'l', 'o', 'c', 'k', 'e', 'd'],
    }
}

impl ReservationStatus {
    /// The status for a wire code, if the code names one.
    pub fn from_i32(v: i32) -> (r: Option<ReservationStatus>)
        ensures
            r == status_of_code(v),
            r is Some <==> is_status_code(v),
    {
        if v == 0 {
            Some(ReservationStatus::Unknown)
        } else if v == 1 {
            Some(ReservationStatus::Pending)
        } else if v == 2 {
            Some(ReservationStatus::Confirmed)
        } else if v == 3 {
            Some(ReservationStatus::Blocked)
        } else {
            None
        }
    }

    /// The wire code of this status.
    pub fn as_i32(&self) -> (r: i32)
        ensures
            r == status_code(*self),
            status_of_code(r) == Some(*self),
    {
        match self {
            ReservationStatus::Unknown => 0,
            ReservationStatus::Pending => 1,
            ReservationStatus::Confirmed => 2,
            ReservationStatus::Blocked => 3,
        }
    }

    /// The lowercase name of this status.
    pub fn to_string(&self) -> (r: String)
        ensures
            r@ == status_name(*self),
    {
        let r = match self {
            ReservationStatus::Unknown => String::from_str("unknown"),
            ReservationStatus::Pending => String::from_str("pending"),
            ReservationStatus::Confirmed => String::from_str("confirmed"),
            ReservationStatus::Blocked => String::from_str("blocked"),
        };
        proof {
            reveal_strlit("unknown");
            reveal_strlit("pending");
            reveal_strlit("confirmed");
            reveal_strlit("blocked");
        }
        r
    }
}

/// The wire status that a stored status stands for.
pub open spec fn status_from_stored(s: RsvpStatus) -> ReservationStatus {
    match s {
        RsvpStatus::Unknown => ReservationStatus::Unknown,
        RsvpStatus::Pending => ReservationStatus::Pending,
        RsvpStatus::Confirmed => ReservationStatus::Confirmed,
        RsvpStatus::Blocked => ReservationStatus::Blocked,
    }
}

impl From<RsvpStatus> for ReservationStatus {
    fn from(rsvp: RsvpStatus) -> (r: ReservationStatus) {
        match rsvp {
            RsvpStatus::Unknown => ReservationStatus::Unknown,
            RsvpStatus::Pending => ReservationStatus::Pending,
            RsvpStatus::Confirmed => ReservationStatus::Confirmed,
            RsvpStatus::Blocked => ReservationStatus::Blocked,
        }
    }
}

impl vstd::std_specs::convert::FromSpecImpl<RsvpStatus> for ReservationStatus {
    open spec fn obeys_from_spec() -> bool {
        true
    }

    open spec fn from_spec(v: RsvpStatus) -> ReservationStatus {
        status_from_stored(v)
    }
}

} // verus!
