//! Half-open windows of time, as the storage holds them.

use crate::error::{Error, ErrorView};
use crate::time::Timestamp;
use vstd::prelude::*;
use vstd::std_specs::convert::FromSpecImpl;

verus! {

/// One end of a range.
#[derive(Clone, Copy, Debug, PartialEq, Eq)]
pub enum RangeBound<T> {
    /// The range reaches the value and holds it.
    Included(T),
    /// The range reaches the value and does not hold it.
    Excluded(T),
    /// The range has no end on this side.
    Unbounded,
}

/// A range of values between two bounds.
#[derive(Clone, Copy, Debug, PartialEq, Eq)]
pub struct Span<T> {
    pub start: RangeBound<T>,
    pub end: RangeBound<T>,
}

/// The range of time that a reservation takes.
pub type TimeSpan = Span<Timestamp>;

/// A range reduced to the values at its ends: nothing where an end is open.
#[derive(Clone, Copy, Debug, PartialEq, Eq)]
pub struct NaiveRange<T> {
    pub start: Option<T>,
    pub end: Option<T>,
}

/// The value at a bound, if the bound has one.
pub open spec fn bound_value<T>(bound: RangeBound<T>) -> Option<T> {
    match bound {
        RangeBound::Included(v) => Some(v),
        RangeBound::Excluded(v) => Some(v),
        RangeBound::Unbounded => None,
    }
}

fn value_of_bound<T>(bound: RangeBound<T>) -> (value: Option<T>)
    ensures
        value == bound_value(bound),
{
    match bound {
        RangeBound::Included(v) => Some(v),
        RangeBound::Excluded(v) => Some(v),
        RangeBound::Unbounded => None,
    }
}

impl<T> From<Span<T>> for NaiveRange<T> {
    fn from(range: Span<T>) -> (naive: NaiveRange<T>) {
        let start = value_of_bound(range.start);
        let end = value_of_bound(range.end);
        NaiveRange { start, end }
    }
}

impl<T> FromSpecImpl<Span<T>> for NaiveRange<T> {
    open spec fn obeys_from_spec() -> bool {
        true
    }

    open spec fn from_spec(range: Span<T>) -> NaiveRange<T> {
        NaiveRange { start: bound_value(range.start), end: bound_value(range.end) }
    }
}

/// Whether `start` and `end` bound a window: both are there, and `start`
/// lies strictly before `end`.
pub open spec fn is_window(start: Option<Timestamp>, end: Option<Timestamp>) -> bool {
    start is Some && end is Some && start->0.instant() < end->0.instant()
}

/// What is wrong with a window, if anything: a missing end, or a start that
/// is not before the end, is an invalid time.
pub open spec fn range_violation(start: Option<Timestamp>, end: Option<Timestamp>) -> Option<
    ErrorView,
> {
    if is_window(start, end) {
        None
    } else {
        Some(ErrorView::InvalidTime)
    }
}

/// Accepts `start` and `end` where they bound a window.
pub fn validate_range(start: Option<&Timestamp>, end: Option<&Timestamp>) -> (checked: Result<
    (),
    Error,
>)
    ensures
        match checked {
            Ok(_) => is_window(deref_option(start), deref_option(end)),
            Err(e) => !is_window(deref_option(start), deref_option(end)) && e@
                == ErrorView::InvalidTime,
        },
{
    match (start, end) {
        (Some(start), Some(end)) => {
            if start.is_before(end) {
                Ok(())
            } else {
                Err(Error::InvalidTime)
            }
        },
        _ => Err(Error::InvalidTime),
    }
}

/// The value behind an optional reference.
pub open spec fn deref_option(value: Option<&Timestamp>) -> Option<Timestamp> {
    match value {
        Some(v) => Some(*v),
        None => None,
    }
}

/// The half-open range `[start, end)`.
pub fn get_timespan(start: Option<&Timestamp>, end: Option<&Timestamp>) -> (span: TimeSpan)
    requires
        start is Some,
        end is Some,
    ensures
        span.start == RangeBound::Included(*start->0),
        span.end == RangeBound::Excluded(*end->0),
{
    Span { start: RangeBound::Included(*start.unwrap()), end: RangeBound::Excluded(*end.unwrap()) }
}

} // verus!
