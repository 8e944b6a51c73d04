//! The decisions of the reservation engine.
//!
//! The engine does not talk to the storage itself. Each operation is split
//! in two: a function that checks the input and says what to ask the
//! storage for, and a function that takes what the storage answered and
//! says what the caller gets. Whoever runs the engine carries the request to
//! the storage and the answer back. An input that is refused yields no
//! request, so nothing reaches the storage on its behalf.

use crate::error::{error_of_failure, Error, ErrorView, StorageFailure};
use crate::filter::{filter_pager, FilterPager, FilterPredicate, ReservationFilter};
use crate::pager::{page_rows, pager_of};
use crate::query::{QueryPredicate, ReservationQuery};
use crate::reservation::Reservation;
use crate::status::{status_of, ReservationStatus};
use crate::timespan::{RangeBound, TimeSpan};
use crate::{Normalizer, ReservationId, Validator};
use std::collections::VecDeque;
use vstd::prelude::*;

verus! {

/// How many results of a scan may wait for the caller before the scan is
/// held back.
pub const SCAN_BUFFER: usize = 128;

/// Stores a reservation and returns the id it was given. Its parameters
/// are, in order, the user, the resource, the window, the note and the
/// status.
pub const INSERT: &'static str =
    "INSERT INTO rsvp.reservations (user_id, resource_id, timespan, note, status) VALUES ($1, $2, $3, $4, $5::rsvp.reservation_status) RETURNING id";

/// Confirms the reservation of the given id if it is pending, and returns
/// it; touches and returns nothing otherwise.
pub const CONFIRM: &'static str =
    "UPDATE rsvp.reservations SET status = 'confirmed' WHERE id = $1 AND status = 'pending' RETURNING *";

/// Replaces the note of the reservation of the given id and returns the
/// reservation. Its parameters are the note and the id.
pub const UPDATE_NOTE: &'static str =
    "UPDATE rsvp.reservations SET note = $1 WHERE id = $2 RETURNING *";

/// Returns the reservation of the given id.
pub const GET: &'static str = "SELECT * FROM rsvp.reservations WHERE id = $1";

/// Removes the reservation of the given id and returns it.
pub const DELETE: &'static str = "DELETE FROM rsvp.reservations WHERE id = $1 RETURNING *";

/// What the engine asks the storage for.
#[derive(Debug, Clone, PartialEq)]
pub enum StorageRequest {
    /// Store a reservation. The storage refuses it where its window
    /// overlaps that of a stored reservation of the same resource.
    Insert { user_id: String, resource_id: String, timespan: TimeSpan, note: String, status: ReservationStatus },
    /// Confirm a pending reservation.
    Confirm { id: i64 },
    /// Replace the note of a reservation.
    UpdateNote { id: i64, note: String },
    /// Fetch a reservation.
    Get { id: i64 },
    /// Remove a reservation.
    Delete { id: i64 },
    /// Fetch, row by row, every reservation that a query's predicate holds of.
    Scan(QueryPredicate),
    /// Fetch at once the window of rows that a filter's predicate holds of.
    Page(FilterPredicate),
}

/// The status under which a reservation is stored: its own, or `Pending`
/// where it has none, that is where its status is `Unknown` or no status at
/// all.
pub open spec fn stored_status(status: i32) -> ReservationStatus {
    match status_of(status as int) {
        Some(ReservationStatus::Unknown) | None => ReservationStatus::Pending,
        Some(own) => own,
    }
}

/// The request that stores a valid reservation.
pub open spec fn insert_of(rsvp: Reservation) -> StorageRequest {
    StorageRequest::Insert {
        user_id: rsvp.user_id,
        resource_id: rsvp.resource_id,
        timespan: TimeSpan {
            start: RangeBound::Included(rsvp.start->0),
            end: RangeBound::Excluded(rsvp.end->0),
        },
        note: rsvp.note,
        status: stored_status(rsvp.status),
    }
}

/// The statement of each request.
pub open spec fn statement_of(request: StorageRequest) -> Seq<char> {
    match request {
        StorageRequest::Insert { .. } => INSERT@,
        StorageRequest::Confirm { .. } => CONFIRM@,
        StorageRequest::UpdateNote { .. } => UPDATE_NOTE@,
        StorageRequest::Get { .. } => GET@,
        StorageRequest::Delete { .. } => DELETE@,
        StorageRequest::Scan(predicate) => QueryPredicate::statement_text(predicate.desc),
        StorageRequest::Page(predicate) => FilterPredicate::statement_text(predicate.desc),
    }
}

impl StorageRequest {
    /// The statement that carries this request to the storage. Every value
    /// of the request is a parameter of the statement, never a part of it.
    pub fn statement(&self) -> (text: &'static str)
        ensures
            text@ == statement_of(*self),
    {
        match self {
            StorageRequest::Insert { .. } => INSERT,
            StorageRequest::Confirm { .. } => CONFIRM,
            StorageRequest::UpdateNote { .. } => UPDATE_NOTE,
            StorageRequest::Get { .. } => GET,
            StorageRequest::Delete { .. } => DELETE,
            StorageRequest::Scan(predicate) => predicate.statement(),
            StorageRequest::Page(predicate) => predicate.statement(),
        }
    }
}

/// Making a reservation, first half: checks the reservation and asks the
/// storage to store it.
pub fn reserve(rsvp: &Reservation) -> (request: Result<StorageRequest, Error>)
    ensures
        match request {
            Ok(r) => rsvp.violation() is None && r == insert_of(*rsvp),
            Err(e) => rsvp.violation() == Some(e@),
        },
{
    match rsvp.validate() {
        Ok(_) => {},
        Err(e) => {
            return Err(e);
        },
    }
    let status = match ReservationStatus::from_i32(rsvp.status) {
        Some(ReservationStatus::Unknown) | None => ReservationStatus::Pending,
        Some(own) => own,
    };
    Ok(
        StorageRequest::Insert {
            user_id: rsvp.user_id.clone(),
            resource_id: rsvp.resource_id.clone(),
            timespan: rsvp.get_timespan(),
            note: rsvp.note.clone(),
            status,
        },
    )
}

/// The reservation with the id that the storage gave it.
pub open spec fn with_id(rsvp: Reservation, id: i64) -> Reservation {
    Reservation {
        id,
        user_id: rsvp.user_id,
        status: rsvp.status,
        resource_id: rsvp.resource_id,
        start: rsvp.start,
        end: rsvp.end,
        note: rsvp.note,
    }
}

/// Making a reservation, second half: the reservation with its new id, or
/// the error that the storage's failure becomes. A refusal because of an
/// overlap becomes a conflict that names both windows.
pub fn reserved(rsvp: Reservation, outcome: Result<i64, StorageFailure>) -> (result: Result<
    Reservation,
    Error,
>)
    ensures
        match outcome {
            Ok(id) => result == Ok::<Reservation, Error>(with_id(rsvp, id)),
            Err(failure) => result matches Err(e) && e@ == error_of_failure(failure@),
        },
{
    match outcome {
        Ok(id) => {
            let mut rsvp = rsvp;
            rsvp.id = id;
            Ok(rsvp)
        },
        Err(failure) => Err(Error::from(failure)),
    }
}

/// Confirming a reservation, first half: checks the id and asks the storage
/// to confirm the reservation if it is pending.
pub fn change_status(id: ReservationId) -> (request: Result<StorageRequest, Error>)
    ensures
        match request {
            Ok(r) => id > 0 && r == (StorageRequest::Confirm { id }),
            Err(e) => id <= 0 && e@ == ErrorView::InvalidReservationId(id),
        },
{
    match id.validate() {
        Ok(_) => Ok(StorageRequest::Confirm { id }),
        Err(e) => Err(e),
    }
}

/// Replacing a note, first half: checks the id and asks the storage to
/// replace the note, whatever the status of the reservation.
pub fn update_note(id: ReservationId, note: String) -> (request: Result<StorageRequest, Error>)
    ensures
        match request {
            Ok(r) => id > 0 && r == (StorageRequest::UpdateNote { id, note }),
            Err(e) => id <= 0 && e@ == ErrorView::InvalidReservationId(id),
        },
{
    match id.validate() {
        Ok(_) => Ok(StorageRequest::UpdateNote { id, note }),
        Err(e) => Err(e),
    }
}

/// Fetching a reservation, first half: checks the id and asks the storage
/// for the reservation.
pub fn get(id: ReservationId) -> (request: Result<StorageRequest, Error>)
    ensures
        match request {
            Ok(r) => id > 0 && r == (StorageRequest::Get { id }),
            Err(e) => id <= 0 && e@ == ErrorView::InvalidReservationId(id),
        },
{
    match id.validate() {
        Ok(_) => Ok(StorageRequest::Get { id }),
        Err(e) => Err(e),
    }
}

/// Removing a reservation, first half: checks the id and asks the storage
/// to remove the reservation, whatever its status.
pub fn delete(id: ReservationId) -> (request: Result<StorageRequest, Error>)
    ensures
        match request {
            Ok(r) => id > 0 && r == (StorageRequest::Delete { id }),
            Err(e) => id <= 0 && e@ == ErrorView::InvalidReservationId(id),
        },
{
    match id.validate() {
        Ok(_) => Ok(StorageRequest::Delete { id }),
        Err(e) => Err(e),
    }
}

/// The second half of confirming, replacing a note, fetching and removing:
/// the reservation that the storage returned, or the error that its failure
/// becomes. No row is `NotFound`: for confirming this is the one answer to
/// a reservation that is not there and to one that is not pending.
pub fn returned(outcome: Result<Reservation, StorageFailure>) -> (result: Result<
    Reservation,
    Error,
>)
    ensures
        match outcome {
            Ok(rsvp) => result == Ok::<Reservation, Error>(rsvp),
            Err(failure) => result matches Err(e) && e@ == error_of_failure(failure@),
        },
{
    match outcome {
        Ok(rsvp) => Ok(rsvp),
        Err(failure) => Err(Error::from(failure)),
    }
}

/// Scanning, first half: checks the query, fills in its defaults and asks
/// the storage for the rows of its predicate.
pub fn query(wanted: ReservationQuery) -> (request: Result<StorageRequest, Error>)
    ensures
        match request {
            Ok(r) => wanted.violation() is None && r == StorageRequest::Scan(
                wanted.normal_form().predicate_of(),
            ),
            Err(e) => wanted.violation() == Some(e@),
        },
{
    let mut wanted = wanted;
    match wanted.normalize() {
        Ok(_) => Ok(StorageRequest::Scan(wanted.predicate())),
        Err(e) => Err(e),
    }
}

/// What happens while a scan runs.
#[derive(Debug, Clone)]
pub enum ScanEvent {
    /// The storage reported on the statement, not on a row.
    Summary,
    /// The storage returned a row.
    Row(Reservation),
    /// The storage failed.
    Failure(StorageFailure),
    /// The storage has no more rows.
    Exhausted,
    /// The caller took the last result.
    Delivered,
    /// The caller is gone: the last result could not be handed over.
    Abandoned,
}

/// What a scan does next.
#[derive(Debug)]
pub enum ScanAction {
    /// Ask the storage for its next answer.
    Fetch,
    /// Hand a result to the caller, waiting while `SCAN_BUFFER` results
    /// are still untaken.
    Deliver(Result<Reservation, Error>),
    /// End the scan.
    Stop,
}

/// What a `ScanAction` holds.
pub enum ScanActionView {
    Fetch,
    Deliver(Result<Reservation, ErrorView>),
    Stop,
}

impl View for ScanAction {
    type V = ScanActionView;

    open spec fn view(&self) -> ScanActionView {
        match self {
            ScanAction::Fetch => ScanActionView::Fetch,
            ScanAction::Deliver(Ok(rsvp)) => ScanActionView::Deliver(Ok(*rsvp)),
            ScanAction::Deliver(Err(e)) => ScanActionView::Deliver(Err(e@)),
            ScanAction::Stop => ScanActionView::Stop,
        }
    }
}

/// The next step of a scan. Rows and failures are handed to the caller, a
/// failure as the error it becomes, and the scan goes on after each that
/// the caller took. It ends when the storage has no more rows, and at once
/// when the caller is gone.
pub open spec fn next_scan_action(event: ScanEvent) -> ScanActionView {
    match event {
        ScanEvent::Summary => ScanActionView::Fetch,
        ScanEvent::Row(rsvp) => ScanActionView::Deliver(Ok(rsvp)),
        ScanEvent::Failure(failure) => ScanActionView::Deliver(Err(error_of_failure(failure@))),
        ScanEvent::Exhausted => ScanActionView::Stop,
        ScanEvent::Delivered => ScanActionView::Fetch,
        ScanEvent::Abandoned => ScanActionView::Stop,
    }
}

/// Scanning, second half: decides the next step of a running scan.
pub fn scan_step(event: ScanEvent) -> (action: ScanAction)
    ensures
        action@ == next_scan_action(event),
{
    match event {
        ScanEvent::Summary => ScanAction::Fetch,
        ScanEvent::Row(rsvp) => ScanAction::Deliver(Ok(rsvp)),
        ScanEvent::Failure(failure) => ScanAction::Deliver(Err(Error::from(failure))),
        ScanEvent::Exhausted => ScanAction::Stop,
        ScanEvent::Delivered => ScanAction::Fetch,
        ScanEvent::Abandoned => ScanAction::Stop,
    }
}

/// Listing a page, first half: checks the filter, fills in its defaults and
/// asks the storage for the window of rows around the page. A filter that
/// is refused, such as one with a page size outside 10 to 100, yields no
/// request and is left as it was.
pub fn filter(wanted: &mut ReservationFilter) -> (request: Result<StorageRequest, Error>)
    ensures
        match request {
            Ok(r) => old(wanted).violation() is None && *final(wanted) == old(
                wanted,
            ).normal_form() && r == StorageRequest::Page(final(wanted).predicate_of()),
            Err(e) => old(wanted).violation() == Some(e@) && *final(wanted) == *old(wanted),
        },
{
    match wanted.normalize() {
        Ok(_) => Ok(StorageRequest::Page(wanted.predicate())),
        Err(e) => Err(e),
    }
}

/// Listing a page, second half: trims the fetched window to the page and
/// returns it with the cursors of the neighbouring pages.
pub fn filtered(wanted: &ReservationFilter, rows: Vec<Reservation>) -> (result: (
    FilterPager,
    Vec<Reservation>,
))
    ensures
        result.0 == filter_pager(pager_of(wanted.page(), rows@)),
        result.1@ == page_rows(wanted.page(), rows@),
{
    let mut rows = rows;
    let ghost window = rows@;
    let mut queue: VecDeque<Reservation> = VecDeque::new();
    while rows.len() > 0
        invariant
            rows@ + queue@ == window,
        decreases rows.len(),
    {
        let last = rows.pop().unwrap();
        queue.push_front(last);
    }
    let pager = wanted.get_pager(&mut queue);
    let ghost page = queue@;
    let mut kept: Vec<Reservation> = Vec::new();
    while queue.len() > 0
        invariant
            kept@ + queue@ == page,
        decreases queue.len(),
    {
        let first = queue.pop_front().unwrap();
        kept.push(first);
    }
    (pager, kept)
}

} // verus!
