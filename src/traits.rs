use vstd::prelude::*;

use crate::error::Error;

verus! {

/// Identifier of a stored reservation; `0` means not yet stored.
pub type ReservationId = i64;

/// A domain input that can be checked before any SQL is issued.
pub trait Validator {
    /// The outcome that validation must give.
    spec fn validation(&self) -> Result<(), Error>;

    fn validate(&self) -> (r: Result<(), Error>)
        ensures
            r == self.validation(),
    ;
}

/// A domain input that is validated and then rewritten into its normal form.
pub trait Normalize: Validator + Sized {
    /// The normal form of a value.
    spec fn normalized(&self) -> Self;

    /// Validates, then rewrites in place; leaves the value as it was on failure.
    fn normalize(&mut self) -> (r: Result<(), Error>)
        ensures
            r == old(self).validation(),
            r is Ok ==> *final(self) == old(self).normalized(),
            r is Err ==> *final(self) == *old(self),
    {
        let r = self.validate();
        if r.is_ok() {
            self.do_normalize();
        }
        r
    }

    fn do_normalize(&mut self)
        ensures
            *final(self) == old(self).normalized(),
    ;
}

/// A descriptor that SQL text is generated from.
pub trait ToSql {
    /// What the descriptor must satisfy for its SQL to be written.
    spec fn sql_ready(&self) -> bool;

    /// The SQL text of the descriptor.
    spec fn sql(&self) -> Seq<char>;

    fn to_sql(&self) -> (r: String)
        requires
            self.sql_ready(),
        ensures
            r@ == self.sql(),
    ;
}

/// A reservation id is valid when positive.
pub open spec fn id_check(id: i64) -> Result<(), Error> {
    if id <= 0 {
        Err(Error::InvalidReservationId(id))
    } else {
        Ok(())
    }
}

impl Validator for ReservationId {
    open spec fn validation(&self) -> Result<(), Error> {
        id_check(*self)
    }

    fn validate(&self) -> (r: Result<(), Error>) {
        if *self <= 0 {
            return Err(Error::InvalidReservationId(*self));
        }
        Ok(())
    }
}

} // verus!
