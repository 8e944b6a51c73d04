//! Time-bounded reservations of resources: what a valid reservation is, how
//! a conflict that the storage reports is read, how queries and filters
//! become predicates, and how a fetched window of rows becomes a page.

pub mod config;
pub mod conflict;
pub mod engine;
pub mod error;
pub mod filter;
pub mod pager;
pub mod query;
pub mod reservation;
pub mod sql;
pub mod status;
pub mod text;
pub mod time;
pub mod timespan;

pub use config::{default_pool_size, Config, DbConfig, ServerConfig};
pub use conflict::{
    FieldMap, ParsedInfo, ReservationConflict, ReservationConflictInfo, ReservationWindow,
};
pub use error::{Error, ErrorCategory, ErrorView, StorageFailure};
pub use filter::{FilterPager, FilterPredicate, ReservationFilter, ReservationFilterBuilder};
pub use pager::{Id, PageInfo, Pager, Paginator};
pub use query::{QueryPredicate, ReservationQuery, ReservationQueryBuilder};
pub use reservation::{Reservation, ReservationRow};
pub use status::{ReservationStatus, ReservationUpdateType, RsvpStatus};
pub use time::{parse_datetime, Timestamp};
pub use timespan::{get_timespan, validate_range, NaiveRange, RangeBound, Span, TimeSpan};

use vstd::prelude::*;

verus! {

pub type ReservationId = i64;

pub type UserId = String;

pub type ResourceId = String;

/// A value that can be checked against the rules it must meet.
pub trait Validator {
    /// The first rule that the value breaks, as the error that reports it;
    /// nothing where the value is valid.
    spec fn violation(&self) -> Option<ErrorView>;

    /// Checks the value: succeeds exactly where no rule is broken, and
    /// otherwise fails with the error of the first rule broken.
    fn validate(&self) -> (checked: Result<(), Error>)
        ensures
            match checked {
                Ok(_) => self.violation() is None,
                Err(e) => self.violation() == Some(e@),
            },
    ;
}

/// A value that, once valid, can be brought into the form that the engine
/// works with.
pub trait Normalizer: Validator + Sized {
    /// The value with its defaults filled in.
    spec fn normal_form(&self) -> Self;

    /// Fills in the defaults. This cannot fail.
    fn do_normalize(&mut self)
        ensures
            *final(self) == old(self).normal_form(),
    ;

    /// Validates the value and then fills in its defaults. An invalid value
    /// is left as it was.
    fn normalize(&mut self) -> (checked: Result<(), Error>)
        ensures
            match checked {
                Ok(_) => old(self).violation() is None && *final(self) == old(self).normal_form(),
                Err(e) => old(self).violation() == Some(e@) && *final(self) == *old(self),
            },
    {
        match self.validate() {
            Ok(_) => {
                self.do_normalize();
                Ok(())
            },
            Err(e) => Err(e),
        }
    }
}

/// A request that can be written out in full as one statement of the
/// storage's language, every value in its place. The text is for a reader,
/// in a log or at a console: what the engine sends to the storage is a
/// statement with parameters, which holds no value of the request.
pub trait ToSql {
    /// Whether the request can be written out at all.
    spec fn sql_ready(&self) -> bool;

    /// The statement.
    spec fn sql(&self) -> Seq<char>;

    fn to_sql(&self) -> (statement: String)
        requires
            self.sql_ready(),
        ensures
            statement@ == self.sql(),
    ;
}

impl Validator for ReservationId {
    open spec fn violation(&self) -> Option<ErrorView> {
        if *self <= 0 {
            Some(ErrorView::InvalidReservationId(*self))
        } else {
            None
        }
    }

    fn validate(&self) -> (checked: Result<(), Error>) {
        if *self <= 0 {
            Err(Error::InvalidReservationId(*self))
        } else {
            Ok(())
        }
    }
}

} // verus!
