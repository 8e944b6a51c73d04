//! Instants of time as plain values, and the two places where a calendar is
//! needed: reading the storage's timestamps and writing RFC 3339 text.

use chrono::DateTime;
use vstd::prelude::*;

verus! {

/// An instant in UTC: whole seconds since 1970-01-01T00:00:00Z and a
/// fraction in nanoseconds that counts forward from there.
#[derive(Clone, Copy, Debug, PartialEq, Eq, Hash, Structural)]
pub struct Timestamp {
    pub seconds: i64,
    pub nanos: i32,
}

/// The format in which the storage writes a timestamp inside a range
/// literal: date, time of day to the second, and a UTC offset of which the
/// minutes may be left out.
pub const STORAGE_TIME_FORMAT: &'static str = "%Y-%m-%d %H:%M:%S%#z";

/// What `chrono::DateTime::parse_from_str` reads from `text` under `format`:
/// the seconds since the epoch and the nanoseconds within the second of the
/// instant, or nothing where the text does not fit the format.
pub uninterp spec fn chrono_parse(text: Seq<char>, format: Seq<char>) -> Option<(i64, u32)>;

/// The RFC 3339 text that `chrono::DateTime::to_rfc3339` writes for the UTC
/// instant that `chrono::DateTime::from_timestamp` makes of the two numbers,
/// or nothing where the numbers are outside the calendar that chrono covers.
pub uninterp spec fn chrono_rfc3339(seconds: i64, nanos: u32) -> Option<Seq<char>>;

/// Calls `chrono::DateTime::parse_from_str` and, where it succeeds, reads
/// the instant with `DateTime::timestamp` and
/// `DateTime::timestamp_subsec_nanos`. The contract only names the outcome.
#[verifier::external_body]
fn parse_with_chrono(text: &str, format: &str) -> (parsed: Option<(i64, u32)>)
    ensures
        parsed == chrono_parse(text@, format@),
{
    match DateTime::parse_from_str(text, format) {
        Ok(instant) => Some((instant.timestamp(), instant.timestamp_subsec_nanos())),
        Err(_) => None,
    }
}

/// Calls `chrono::DateTime::from_timestamp` and, where it yields an instant,
/// `DateTime::to_rfc3339` on it. The contract only names the outcome.
#[verifier::external_body]
fn rfc3339_with_chrono(seconds: i64, nanos: u32) -> (text: Option<String>)
    ensures
        match text {
            Some(t) => chrono_rfc3339(seconds, nanos) == Some(t@),
            None => chrono_rfc3339(seconds, nanos) is None,
        },
{
    match DateTime::from_timestamp(seconds, nanos) {
        Some(instant) => Some(instant.to_rfc3339()),
        None => None,
    }
}

/// The timestamp that a parsed pair of seconds and nanoseconds stands for.
/// A fraction too large for the nanosecond field counts as unreadable.
pub open spec fn timestamp_of(parsed: Option<(i64, u32)>) -> Option<Timestamp> {
    match parsed {
        Some((seconds, nanos)) => if nanos <= i32::MAX {
            Some(Timestamp { seconds, nanos: nanos as i32 })
        } else {
            None
        },
        None => None,
    }
}

/// The timestamp that the storage's text stands for, if it is one.
pub open spec fn parsed_datetime(text: Seq<char>) -> Option<Timestamp> {
    timestamp_of(chrono_parse(text, STORAGE_TIME_FORMAT@))
}

impl Timestamp {
    /// The instant as a count of nanoseconds since the epoch.
    pub open spec fn instant(self) -> int {
        self.seconds * 1_000_000_000 + self.nanos
    }

    /// The RFC 3339 text of this instant, if it has one: the fraction must
    /// not be negative and the calendar must reach the instant.
    pub open spec fn rfc3339(self) -> Option<Seq<char>> {
        if self.nanos < 0 {
            None
        } else {
            chrono_rfc3339(self.seconds, self.nanos as u32)
        }
    }

    /// Whether this instant lies strictly before `other`.
    pub fn is_before(&self, other: &Timestamp) -> (before: bool)
        ensures
            before == (self.instant() < other.instant()),
    {
        let this: i128 = (self.seconds as i128) * 1_000_000_000 + (self.nanos as i128);
        let that: i128 = (other.seconds as i128) * 1_000_000_000 + (other.nanos as i128);
        this < that
    }

    /// Builds the timestamp from what a calendar parser returned.
    pub fn from_parsed(parsed: Option<(i64, u32)>) -> (timestamp: Result<Timestamp, ()>)
        ensures
            match timestamp {
                Ok(t) => timestamp_of(parsed) == Some(t),
                Err(_) => timestamp_of(parsed) is None,
            },
    {
        match parsed {
            Some((seconds, nanos)) => {
                if nanos <= 0x7fff_ffff {
                    Ok(Timestamp { seconds, nanos: nanos as i32 })
                } else {
                    Err(())
                }
            },
            None => Err(()),
        }
    }

    /// The RFC 3339 text of this instant in UTC, such as
    /// `2022-12-26T22:00:00+00:00`, or nothing where it has none.
    pub fn to_rfc3339(&self) -> (text: Option<String>)
        ensures
            match text {
                Some(t) => self.rfc3339() == Some(t@),
                None => self.rfc3339() is None,
            },
    {
        if self.nanos < 0 {
            None
        } else {
            rfc3339_with_chrono(self.seconds, self.nanos as u32)
        }
    }
}

/// Reads a timestamp as the storage writes it, such as
/// `2022-12-26 22:00:00+00`.
pub fn parse_datetime(s: &str) -> (timestamp: Result<Timestamp, ()>)
    ensures
        match timestamp {
            Ok(t) => parsed_datetime(s@) == Some(t),
            Err(_) => parsed_datetime(s@) is None,
        },
{
    Timestamp::from_parsed(parse_with_chrono(s, STORAGE_TIME_FORMAT))
}

} // verus!
