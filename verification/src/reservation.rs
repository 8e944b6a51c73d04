//! The reservation itself.

use crate::error::{Error, ErrorView};
use crate::pager::Id;
use crate::status::{ReservationStatus, RsvpStatus};
use crate::time::Timestamp;
use crate::timespan::{
    bound_value, get_timespan, is_window, range_violation, validate_range, RangeBound, TimeSpan,
};
use crate::Validator;
use vstd::prelude::*;

verus! {

/// A reservation of a resource by a user for the window `[start, end)`.
/// The storage assigns the id; until it has, the id is 0.
#[derive(Debug, Clone, PartialEq)]
pub struct Reservation {
    pub id: i64,
    pub user_id: String,
    pub status: i32,
    pub resource_id: String,
    pub start: Option<Timestamp>,
    pub end: Option<Timestamp>,
    pub note: String,
}

/// What a `Reservation` holds.
pub struct ReservationView {
    pub id: i64,
    pub user_id: Seq<char>,
    pub status: i32,
    pub resource_id: Seq<char>,
    pub start: Option<Timestamp>,
    pub end: Option<Timestamp>,
    pub note: Seq<char>,
}

impl View for Reservation {
    type V = ReservationView;

    open spec fn view(&self) -> ReservationView {
        ReservationView {
            id: self.id,
            user_id: self.user_id@,
            status: self.status,
            resource_id: self.resource_id@,
            start: self.start,
            end: self.end,
            note: self.note@,
        }
    }
}

/// The columns of one row of the reservations relation.
#[derive(Debug, Clone)]
pub struct ReservationRow {
    pub id: i64,
    pub user_id: String,
    pub resource_id: String,
    pub timespan: TimeSpan,
    pub note: String,
    pub status: RsvpStatus,
}

/// The first rule that a reservation breaks: it needs a user, then a
/// resource, then a window.
pub open spec fn reservation_violation(rsvp: ReservationView) -> Option<ErrorView> {
    if rsvp.user_id.len() == 0 {
        Some(ErrorView::InvalidUserId(rsvp.user_id))
    } else if rsvp.resource_id.len() == 0 {
        Some(ErrorView::InvalidResourceId(rsvp.resource_id))
    } else {
        range_violation(rsvp.start, rsvp.end)
    }
}

/// A reservation is valid exactly when it names a user and a resource and
/// its start lies before its end. One that is not valid breaks exactly one
/// first rule: no user, else no resource, else no such window.
pub proof fn lemma_valid_reservation(rsvp: ReservationView)
    ensures
        reservation_violation(rsvp) is None <==> rsvp.user_id.len() > 0 && rsvp.resource_id.len()
            > 0 && is_window(rsvp.start, rsvp.end),
        reservation_violation(rsvp) == Some(ErrorView::InvalidUserId(rsvp.user_id))
            <==> rsvp.user_id.len() == 0,
        reservation_violation(rsvp) == Some(ErrorView::InvalidResourceId(rsvp.resource_id))
            <==> rsvp.user_id.len() > 0 && rsvp.resource_id.len() == 0,
        reservation_violation(rsvp) == Some(ErrorView::InvalidTime) <==> rsvp.user_id.len() > 0
            && rsvp.resource_id.len() > 0 && !is_window(rsvp.start, rsvp.end),
{
}

/// The number that stands for the status a row holds.
pub open spec fn row_status(status: RsvpStatus) -> i32 {
    match status {
        RsvpStatus::Unknown => 0,
        RsvpStatus::Pending => 1,
        RsvpStatus::Confirmed => 2,
        RsvpStatus::Blocked => 3,
    }
}

impl Reservation {
    /// A reservation that is not stored yet: its id is 0 and it is pending.
    pub fn new_pending(uid: &str, rid: &str, start: Timestamp, end: Timestamp, note: &str) -> (rsvp:
        Reservation)
        ensures
            rsvp@ == (ReservationView {
                id: 0,
                user_id: uid@,
                status: 1,
                resource_id: rid@,
                start: Some(start),
                end: Some(end),
                note: note@,
            }),
    {
        Reservation {
            id: 0,
            user_id: uid.to_owned(),
            status: ReservationStatus::Pending.to_i32(),
            resource_id: rid.to_owned(),
            start: Some(start),
            end: Some(end),
            note: note.to_owned(),
        }
    }

    /// The window of the reservation as a half-open range.
    pub fn get_timespan(&self) -> (span: TimeSpan)
        requires
            self.start is Some,
            self.end is Some,
        ensures
            span.start == RangeBound::Included(self.start->0),
            span.end == RangeBound::Excluded(self.end->0),
    {
        get_timespan(self.start.as_ref(), self.end.as_ref())
    }

    /// The reservation that a row holds. The window of a stored reservation
    /// has both its ends.
    pub fn from_row(row: ReservationRow) -> (rsvp: Reservation)
        requires
            bound_value(row.timespan.start) is Some,
            bound_value(row.timespan.end) is Some,
        ensures
            rsvp@ == (ReservationView {
                id: row.id,
                user_id: row.user_id@,
                status: row_status(row.status),
                resource_id: row.resource_id@,
                start: bound_value(row.timespan.start),
                end: bound_value(row.timespan.end),
                note: row.note@,
            }),
    {
        let range: crate::timespan::NaiveRange<Timestamp> = crate::timespan::NaiveRange::from(
            row.timespan,
        );
        let status: ReservationStatus = ReservationStatus::from(row.status);
        Reservation {
            id: row.id,
            user_id: row.user_id,
            status: status.to_i32(),
            resource_id: row.resource_id,
            start: range.start,
            end: range.end,
            note: row.note,
        }
    }
}

impl Id for Reservation {
    open spec fn spec_id(&self) -> i64 {
        self.id
    }

    fn id(&self) -> (id: i64) {
        self.id
    }
}

impl Validator for Reservation {
    open spec fn violation(&self) -> Option<ErrorView> {
        reservation_violation(self@)
    }

    fn validate(&self) -> (checked: Result<(), Error>) {
        if self.user_id.as_str().is_empty() {
            return Err(Error::InvalidUserId(self.user_id.clone()));
        }
        if self.resource_id.as_str().is_empty() {
            return Err(Error::InvalidResourceId(self.resource_id.clone()));
        }
        validate_range(self.start.as_ref(), self.end.as_ref())
    }
}

} // verus!
