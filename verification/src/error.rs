//! The errors of the reservation engine, and how a failure of the storage
//! becomes one of them.

use crate::conflict::{conflict_info, ConflictInfoView, ReservationConflictInfo};
use crate::text::{decimal, push_decimal, same_text};
use vstd::prelude::*;
use vstd::std_specs::cmp::PartialEqSpecImpl;
use vstd::string::StringExecFns;

verus! {

/// The code under which the storage reports that an exclusion constraint
/// refused a row.
pub const EXCLUSION_VIOLATION: &'static str = "23P01";

/// The schema of the reservations relation.
pub const RESERVATION_SCHEMA: &'static str = "rsvp";

/// The name of the reservations relation.
pub const RESERVATION_TABLE: &'static str = "reservations";

/// A failure of the storage, as far as the engine reads it.
#[derive(Debug, Clone)]
pub enum StorageFailure {
    /// A statement that must return a row returned none.
    RowNotFound,
    /// The storage refused a statement and said why.
    Database {
        code: String,
        schema: Option<String>,
        table: Option<String>,
        detail: Option<String>,
        message: String,
    },
    /// Anything else, with its message.
    Other(String),
}

/// What a `StorageFailure` holds.
pub enum StorageFailureView {
    RowNotFound,
    Database {
        code: Seq<char>,
        schema: Option<Seq<char>>,
        table: Option<Seq<char>>,
        detail: Option<Seq<char>>,
        message: Seq<char>,
    },
    Other(Seq<char>),
}

/// The text of an optional string.
pub open spec fn optional_text(text: Option<String>) -> Option<Seq<char>> {
    match text {
        Some(t) => Some(t@),
        None => None,
    }
}

impl View for StorageFailure {
    type V = StorageFailureView;

    open spec fn view(&self) -> StorageFailureView {
        match self {
            StorageFailure::RowNotFound => StorageFailureView::RowNotFound,
            StorageFailure::Database { code, schema, table, detail, message } => {
                StorageFailureView::Database {
                    code: code@,
                    schema: optional_text(*schema),
                    table: optional_text(*table),
                    detail: optional_text(*detail),
                    message: message@,
                }
            },
            StorageFailure::Other(message) => StorageFailureView::Other(message@),
        }
    }
}

/// The errors that the engine reports.
#[derive(Debug)]
pub enum Error {
    DbError(StorageFailure),
    ConfigReadError,
    ConfigParseError,
    InvalidTime,
    ConflictReservation(ReservationConflictInfo),
    NotFound,
    InvalidReservationId(i64),
    InvalidUserId(String),
    InvalidResourceId(String),
    InvalidPageSize(i64),
    InvalidCursor(i64),
    InvalidStatus(i32),
    Unknown,
}

/// What an `Error` holds.
pub enum ErrorView {
    DbError(StorageFailureView),
    ConfigReadError,
    ConfigParseError,
    InvalidTime,
    ConflictReservation(ConflictInfoView),
    NotFound,
    InvalidReservationId(i64),
    InvalidUserId(Seq<char>),
    InvalidResourceId(Seq<char>),
    InvalidPageSize(i64),
    InvalidCursor(i64),
    InvalidStatus(i32),
    Unknown,
}

impl View for Error {
    type V = ErrorView;

    open spec fn view(&self) -> ErrorView {
        match self {
            Error::DbError(failure) => ErrorView::DbError(failure@),
            Error::ConfigReadError => ErrorView::ConfigReadError,
            Error::ConfigParseError => ErrorView::ConfigParseError,
            Error::InvalidTime => ErrorView::InvalidTime,
            Error::ConflictReservation(info) => ErrorView::ConflictReservation(info@),
            Error::NotFound => ErrorView::NotFound,
            Error::InvalidReservationId(id) => ErrorView::InvalidReservationId(*id),
            Error::InvalidUserId(id) => ErrorView::InvalidUserId(id@),
            Error::InvalidResourceId(id) => ErrorView::InvalidResourceId(id@),
            Error::InvalidPageSize(size) => ErrorView::InvalidPageSize(*size),
            Error::InvalidCursor(cursor) => ErrorView::InvalidCursor(*cursor),
            Error::InvalidStatus(status) => ErrorView::InvalidStatus(*status),
            Error::Unknown => ErrorView::Unknown,
        }
    }
}

/// The class of an error, by which a caller decides what to do with it.
#[derive(Clone, Copy, Debug, PartialEq, Eq, Structural)]
pub enum ErrorCategory {
    /// The storage or the configuration failed.
    Internal,
    /// The caller sent a value that the engine does not accept.
    InvalidArgument,
    /// The request collides with a reservation that exists.
    FailedPrecondition,
    /// No reservation fits the request.
    NotFound,
    /// None of the others.
    Unknown,
}

/// Whether a failure is the exclusion constraint of the reservations
/// relation refusing a row.
pub open spec fn is_reservation_conflict(failure: StorageFailureView) -> bool {
    failure matches StorageFailureView::Database { code, schema, table, .. } && code
        == EXCLUSION_VIOLATION@ && schema == Some(RESERVATION_SCHEMA@) && table == Some(
        RESERVATION_TABLE@,
    )
}

/// The report that comes with a refusal: its detail, or nothing at all
/// where the storage gave none.
pub open spec fn conflict_report(failure: StorageFailureView) -> Seq<char> {
    match failure {
        StorageFailureView::Database { detail: Some(text), .. } => text,
        _ => Seq::<char>::empty(),
    }
}

/// The error that a failure of the storage becomes: a refusal by the
/// exclusion constraint is a conflict, read from its report; a missing row
/// is `NotFound`; every other failure is passed on as it is.
pub open spec fn error_of_failure(failure: StorageFailureView) -> ErrorView {
    if is_reservation_conflict(failure) {
        ErrorView::ConflictReservation(conflict_info(conflict_report(failure)))
    } else if failure is RowNotFound {
        ErrorView::NotFound
    } else {
        ErrorView::DbError(failure)
    }
}

/// The class of each error.
pub open spec fn category_of(error: ErrorView) -> ErrorCategory {
    match error {
        ErrorView::DbError(_) | ErrorView::ConfigReadError | ErrorView::ConfigParseError => {
            ErrorCategory::Internal
        },
        ErrorView::InvalidTime
        | ErrorView::InvalidReservationId(_)
        | ErrorView::InvalidUserId(_)
        | ErrorView::InvalidResourceId(_)
        | ErrorView::InvalidPageSize(_)
        | ErrorView::InvalidCursor(_)
        | ErrorView::InvalidStatus(_) => ErrorCategory::InvalidArgument,
        ErrorView::ConflictReservation(_) => ErrorCategory::FailedPrecondition,
        ErrorView::NotFound => ErrorCategory::NotFound,
        ErrorView::Unknown => ErrorCategory::Unknown,
    }
}

/// The message of each error.
pub open spec fn message_of(error: ErrorView) -> Seq<char> {
    match error {
        ErrorView::DbError(_) => "Database error"@,
        ErrorView::ConfigReadError => "Failed to read configuration file"@,
        ErrorView::ConfigParseError => "Failed to parse configuration file"@,
        ErrorView::InvalidTime => "Invalid start or end time for the reservation"@,
        ErrorView::ConflictReservation(_) => "Conflict reservation"@,
        ErrorView::NotFound => "No reservation found by the given condition"@,
        ErrorView::InvalidReservationId(id) => "Invalid reservation id: "@ + decimal(id as int),
        ErrorView::InvalidUserId(id) => "Invalid user id: "@ + id,
        ErrorView::InvalidResourceId(id) => "Invalid resource id: "@ + id,
        ErrorView::InvalidPageSize(size) => "Invalid page size: "@ + decimal(size as int),
        ErrorView::InvalidCursor(cursor) => "Invalid cursor: "@ + decimal(cursor as int),
        ErrorView::InvalidStatus(status) => "Invalid status: "@ + decimal(status as int),
        ErrorView::Unknown => "unknown error"@,
    }
}

/// When two errors count as equal. Storage failures are not told apart.
/// Errors of the configuration and of a page size, a cursor or a status are
/// equal to no error, themselves included; all others are equal when they
/// are the same error about the same value.
pub open spec fn errors_equal(a: ErrorView, b: ErrorView) -> bool {
    match (a, b) {
        (ErrorView::DbError(_), ErrorView::DbError(_)) => true,
        (ErrorView::InvalidTime, ErrorView::InvalidTime) => true,
        (ErrorView::ConflictReservation(x), ErrorView::ConflictReservation(y)) => x == y,
        (ErrorView::NotFound, ErrorView::NotFound) => true,
        (ErrorView::InvalidReservationId(x), ErrorView::InvalidReservationId(y)) => x == y,
        (ErrorView::InvalidUserId(x), ErrorView::InvalidUserId(y)) => x == y,
        (ErrorView::InvalidResourceId(x), ErrorView::InvalidResourceId(y)) => x == y,
        (ErrorView::Unknown, ErrorView::Unknown) => true,
        _ => false,
    }
}

fn is_text(value: &Option<String>, expected: &str) -> (same: bool)
    ensures
        same == (optional_text(*value) == Some(expected@)),
{
    match value {
        Some(text) => same_text(text.as_str(), expected),
        None => false,
    }
}

impl Error {
    /// Turns a failure of the storage into the engine's error.
    pub fn from(failure: StorageFailure) -> (error: Error)
        ensures
            error@ == error_of_failure(failure@),
    {
        match failure {
            StorageFailure::Database { code, schema, table, detail, message } => {
                if same_text(code.as_str(), EXCLUSION_VIOLATION) && is_text(
                    &schema,
                    RESERVATION_SCHEMA,
                ) && is_text(&table, RESERVATION_TABLE) {
                    let info = match &detail {
                        Some(text) => ReservationConflictInfo::parse(text.as_str()),
                        None => ReservationConflictInfo::parse(""),
                    };
                    proof {
                        reveal_strlit("");
                        assert(""@ == Seq::<char>::empty());
                    }
                    Error::ConflictReservation(info)
                } else {
                    Error::DbError(StorageFailure::Database { code, schema, table, detail, message })
                }
            },
            StorageFailure::RowNotFound => Error::NotFound,
            StorageFailure::Other(message) => Error::DbError(StorageFailure::Other(message)),
        }
    }

    /// The class of this error.
    pub fn category(&self) -> (category: ErrorCategory)
        ensures
            category == category_of(self@),
    {
        match self {
            Error::DbError(_) | Error::ConfigReadError | Error::ConfigParseError => {
                ErrorCategory::Internal
            },
            Error::InvalidTime
            | Error::InvalidReservationId(_)
            | Error::InvalidUserId(_)
            | Error::InvalidResourceId(_)
            | Error::InvalidPageSize(_)
            | Error::InvalidCursor(_)
            | Error::InvalidStatus(_) => ErrorCategory::InvalidArgument,
            Error::ConflictReservation(_) => ErrorCategory::FailedPrecondition,
            Error::NotFound => ErrorCategory::NotFound,
            Error::Unknown => ErrorCategory::Unknown,
        }
    }

    /// The message of this error.
    pub fn to_string(&self) -> (message: String)
        ensures
            message@ == message_of(self@),
    {
        match self {
            Error::DbError(_) => String::from_str("Database error"),
            Error::ConfigReadError => String::from_str("Failed to read configuration file"),
            Error::ConfigParseError => String::from_str("Failed to parse configuration file"),
            Error::InvalidTime => String::from_str("Invalid start or end time for the reservation"),
            Error::ConflictReservation(_) => String::from_str("Conflict reservation"),
            Error::NotFound => String::from_str("No reservation found by the given condition"),
            Error::InvalidReservationId(id) => {
                let mut message = String::from_str("Invalid reservation id: ");
                push_decimal(&mut message, *id);
                message
            },
            Error::InvalidUserId(id) => {
                let mut message = String::from_str("Invalid user id: ");
                message.append(id.as_str());
                message
            },
            Error::InvalidResourceId(id) => {
                let mut message = String::from_str("Invalid resource id: ");
                message.append(id.as_str());
                message
            },
            Error::InvalidPageSize(size) => {
                let mut message = String::from_str("Invalid page size: ");
                push_decimal(&mut message, *size);
                message
            },
            Error::InvalidCursor(cursor) => {
                let mut message = String::from_str("Invalid cursor: ");
                push_decimal(&mut message, *cursor);
                message
            },
            Error::InvalidStatus(status) => {
                let mut message = String::from_str("Invalid status: ");
                push_decimal(&mut message, *status as i64);
                message
            },
            Error::Unknown => String::from_str("unknown error"),
        }
    }
}

impl PartialEq for Error {
    fn eq(&self, other: &Self) -> (equal: bool) {
        match (self, other) {
            (Error::DbError(_), Error::DbError(_)) => true,
            (Error::InvalidTime, Error::InvalidTime) => true,
            (Error::ConflictReservation(v1), Error::ConflictReservation(v2)) => *v1 == *v2,
            (Error::NotFound, Error::NotFound) => true,
            (Error::InvalidReservationId(v1), Error::InvalidReservationId(v2)) => *v1 == *v2,
            (Error::InvalidUserId(v1), Error::InvalidUserId(v2)) => *v1 == *v2,
            (Error::InvalidResourceId(v1), Error::InvalidResourceId(v2)) => *v1 == *v2,
            (Error::Unknown, Error::Unknown) => true,
            _ => false,
        }
    }
}

impl PartialEqSpecImpl for Error {
    open spec fn obeys_eq_spec() -> bool {
        true
    }

    open spec fn eq_spec(&self, other: &Self) -> bool {
        errors_equal(self@, other@)
    }
}

} // verus!
