//! Scanning reservations by the window of time that holds them.

use crate::error::{Error, ErrorView};
use crate::sql::{direction, given, given_text, owner_condition, push_owner_condition};
use crate::status::{effective_status, status_of, ReservationStatus};
use crate::time::Timestamp;
use crate::{Normalizer, ToSql, Validator};
use vstd::prelude::*;
use vstd::string::StringExecFns;

verus! {

/// A scan of the reservations whose window lies within `[start, end)`: of
/// one status, optionally of one user and of one resource, ordered by the
/// start of the window. A missing `start` or `end` leaves that side open; an
/// empty `user_id` or `resource_id` stands for any.
#[derive(Debug, Clone, PartialEq)]
pub struct ReservationQuery {
    pub resource_id: String,
    pub user_id: String,
    pub status: i32,
    pub start: Option<Timestamp>,
    pub end: Option<Timestamp>,
    pub desc: bool,
}

/// What the storage is asked for on behalf of a query: rows of `status`, of
/// `user_id` and of `resource_id` where these are given, whose window lies
/// within `[start, end)`, a missing end being open, ordered by the start of
/// the window, descending where `desc` is set.
#[derive(Debug, Clone, PartialEq)]
pub struct QueryPredicate {
    pub start: Option<Timestamp>,
    pub end: Option<Timestamp>,
    pub status: ReservationStatus,
    pub user_id: Option<String>,
    pub resource_id: Option<String>,
    pub desc: bool,
}

/// The statement of an ascending scan. Its parameters are, in order, the
/// start or null, the end or null, the status, the user or null, and the
/// resource or null.
pub const QUERY_ASCENDING: &'static str =
    "SELECT * FROM rsvp.reservations WHERE tstzrange($1, $2) @> timespan AND status = $3::rsvp.reservation_status AND ($4::text IS NULL OR user_id = $4) AND ($5::text IS NULL OR resource_id = $5) ORDER BY lower(timespan) ASC";

/// The statement of a descending scan, with the same parameters.
pub const QUERY_DESCENDING: &'static str =
    "SELECT * FROM rsvp.reservations WHERE tstzrange($1, $2) @> timespan AND status = $3::rsvp.reservation_status AND ($4::text IS NULL OR user_id = $4) AND ($5::text IS NULL OR resource_id = $5) ORDER BY lower(timespan) DESC";

/// How one end of the window is written: an instant in RFC 3339, and a
/// missing one as the infinity on its side. An instant that has no RFC 3339
/// text cannot be written.
pub open spec fn time_text(ts: Option<Timestamp>, start: bool) -> Option<Seq<char>> {
    match ts {
        Some(t) => t.rfc3339(),
        None => Some(
            if start {
                "-infinity"@
            } else {
                "infinity"@
            },
        ),
    }
}

/// The scan written out in full from its parts: the two ends of the window
/// as they are written, the status, the user and the resource, and the
/// direction.
pub open spec fn query_text(
    start: Seq<char>,
    end: Seq<char>,
    status: ReservationStatus,
    user_id: Seq<char>,
    resource_id: Seq<char>,
    desc: bool,
) -> Seq<char> {
    "SELECT * FROM rsvp.reservations WHERE tstzrange('"@ + start + "', '"@ + end
        + "') @> timespan AND status = '"@ + status.name() + "'::rsvp.reservation_status AND "@
        + owner_condition(user_id, resource_id) + " ORDER BY lower(timespan) "@ + direction(desc)
}

/// Writes one end of the window, where it can be written.
pub fn get_time_string(ts: Option<&Timestamp>, start: bool) -> (text: Option<String>)
    ensures
        match text {
            Some(t) => time_text(crate::timespan::deref_option(ts), start) == Some(t@),
            None => time_text(crate::timespan::deref_option(ts), start) is None,
        },
{
    match ts {
        Some(ts) => ts.to_rfc3339(),
        None => Some(
            if start {
                String::from_str("-infinity")
            } else {
                String::from_str("infinity")
            },
        ),
    }
}

/// Writes the scan out in full from its parts.
pub fn query_sql(
    start: &str,
    end: &str,
    status: ReservationStatus,
    user_id: &str,
    resource_id: &str,
    desc: bool,
) -> (statement: String)
    ensures
        statement@ == query_text(start@, end@, status, user_id@, resource_id@, desc),
{
    let mut sql = String::from_str("SELECT * FROM rsvp.reservations WHERE tstzrange('");
    sql.append(start);
    sql.append("', '");
    sql.append(end);
    sql.append("') @> timespan AND status = '");
    sql.append(status.as_str());
    sql.append("'::rsvp.reservation_status AND ");
    push_owner_condition(&mut sql, user_id, resource_id);
    sql.append(" ORDER BY lower(timespan) ");
    if desc {
        sql.append("DESC");
    } else {
        sql.append("ASC");
    }
    sql
}

impl ReservationQuery {
    /// The predicate of the query.
    pub open spec fn predicate_of(&self) -> QueryPredicate {
        QueryPredicate {
            start: self.start,
            end: self.end,
            status: status_of(self.status as int)->0,
            user_id: given(self.user_id),
            resource_id: given(self.resource_id),
            desc: self.desc,
        }
    }

    pub fn get_status(&self) -> (status: ReservationStatus)
        requires
            status_of(self.status as int) is Some,
        ensures
            Some(status) == status_of(self.status as int),
    {
        ReservationStatus::from_i32(self.status).unwrap()
    }

    /// What the storage is asked for on behalf of this query.
    pub fn predicate(&self) -> (predicate: QueryPredicate)
        requires
            status_of(self.status as int) is Some,
        ensures
            predicate == self.predicate_of(),
    {
        QueryPredicate {
            start: self.start,
            end: self.end,
            status: self.get_status(),
            user_id: given_text(&self.user_id),
            resource_id: given_text(&self.resource_id),
            desc: self.desc,
        }
    }

    /// The scan written out in full, or nothing where it cannot be: where
    /// the status is none of the four, or an end of the window has no
    /// RFC 3339 text.
    pub fn checked_sql(&self) -> (statement: Option<String>)
        ensures
            match statement {
                Some(s) => self.sql_ready() && s@ == self.sql(),
                None => !self.sql_ready(),
            },
    {
        if ReservationStatus::from_i32(self.status).is_none() {
            return None;
        }
        if get_time_string(self.start.as_ref(), true).is_none() {
            return None;
        }
        if get_time_string(self.end.as_ref(), false).is_none() {
            return None;
        }
        Some(self.to_sql())
    }
}

impl QueryPredicate {
    /// The statement that asks the storage for the rows of the predicate.
    /// It depends on the direction alone: every value of the request is a
    /// parameter, and none is part of the statement.
    pub open spec fn statement_text(desc: bool) -> Seq<char> {
        if desc {
            QUERY_DESCENDING@
        } else {
            QUERY_ASCENDING@
        }
    }

    pub fn statement(&self) -> (text: &'static str)
        ensures
            text@ == Self::statement_text(self.desc),
    {
        if self.desc {
            QUERY_DESCENDING
        } else {
            QUERY_ASCENDING
        }
    }
}

/// Builds a query step by step. A query that nothing was set on scans the
/// reservations of every user and resource over all of time, ascending.
#[derive(Debug, Clone)]
pub struct ReservationQueryBuilder {
    draft: ReservationQuery,
}

impl View for ReservationQueryBuilder {
    type V = ReservationQuery;

    /// The query as it has been set so far.
    closed spec fn view(&self) -> ReservationQuery {
        self.draft
    }
}

impl Default for ReservationQueryBuilder {
    fn default() -> (builder: ReservationQueryBuilder)
        ensures
            builder@.resource_id@.len() == 0,
            builder@.user_id@.len() == 0,
            builder@.status == 0,
            builder@.start is None,
            builder@.end is None,
            !builder@.desc,
    {
        ReservationQueryBuilder {
            draft: ReservationQuery {
                resource_id: String::new(),
                user_id: String::new(),
                status: 0,
                start: None,
                end: None,
                desc: false,
            },
        }
    }
}

impl ReservationQueryBuilder {
    pub fn resource_id(&mut self, value: &str) -> (builder: &mut ReservationQueryBuilder)
        ensures
            builder@.resource_id@ == value@,
            builder@ == (ReservationQuery { resource_id: builder@.resource_id, ..old(self)@ }),
            *final(self) == *final(builder),
    {
        self.draft.resource_id = value.to_owned();
        self
    }

    pub fn user_id(&mut self, value: &str) -> (builder: &mut ReservationQueryBuilder)
        ensures
            builder@.user_id@ == value@,
            builder@ == (ReservationQuery { user_id: builder@.user_id, ..old(self)@ }),
            *final(self) == *final(builder),
    {
        self.draft.user_id = value.to_owned();
        self
    }

    pub fn status(&mut self, value: i32) -> (builder: &mut ReservationQueryBuilder)
        ensures
            builder@ == (ReservationQuery { status: value, ..old(self)@ }),
            *final(self) == *final(builder),
    {
        self.draft.status = value;
        self
    }

    pub fn start(&mut self, value: Timestamp) -> (builder: &mut ReservationQueryBuilder)
        ensures
            builder@ == (ReservationQuery { start: Some(value), ..old(self)@ }),
            *final(self) == *final(builder),
    {
        self.draft.start = Some(value);
        self
    }

    pub fn end(&mut self, value: Timestamp) -> (builder: &mut ReservationQueryBuilder)
        ensures
            builder@ == (ReservationQuery { end: Some(value), ..old(self)@ }),
            *final(self) == *final(builder),
    {
        self.draft.end = Some(value);
        self
    }

    pub fn desc(&mut self, value: bool) -> (builder: &mut ReservationQueryBuilder)
        ensures
            builder@ == (ReservationQuery { desc: value, ..old(self)@ }),
            *final(self) == *final(builder),
    {
        self.draft.desc = value;
        self
    }

    /// The query as it was set, checked and with its defaults filled in.
    pub fn build(&self) -> (built: Result<ReservationQuery, Error>)
        ensures
            match built {
                Ok(q) => self@.violation() is None && q == self@.normal_form(),
                Err(e) => self@.violation() == Some(e@),
            },
    {
        let mut query = ReservationQuery {
            resource_id: self.draft.resource_id.clone(),
            user_id: self.draft.user_id.clone(),
            status: self.draft.status,
            start: self.draft.start,
            end: self.draft.end,
            desc: self.draft.desc,
        };
        match query.normalize() {
            Ok(_) => Ok(query),
            Err(e) => Err(e),
        }
    }
}

impl Validator for ReservationQuery {
    open spec fn violation(&self) -> Option<ErrorView> {
        if status_of(self.status as int) is None {
            Some(ErrorView::InvalidStatus(self.status))
        } else if self.start is Some && self.end is Some && !(self.start->0.instant()
            < self.end->0.instant()) {
            Some(ErrorView::InvalidTime)
        } else {
            None
        }
    }

    fn validate(&self) -> (checked: Result<(), Error>) {
        if ReservationStatus::from_i32(self.status).is_none() {
            return Err(Error::InvalidStatus(self.status));
        }
        if let (Some(start), Some(end)) = (self.start.as_ref(), self.end.as_ref()) {
            if !start.is_before(end) {
                return Err(Error::InvalidTime);
            }
        }
        Ok(())
    }
}

impl Normalizer for ReservationQuery {
    open spec fn normal_form(&self) -> ReservationQuery {
        ReservationQuery {
            resource_id: self.resource_id,
            user_id: self.user_id,
            status: effective_status(self.status),
            start: self.start,
            end: self.end,
            desc: self.desc,
        }
    }

    fn do_normalize(&mut self) {
        if self.status == ReservationStatus::Unknown.to_i32() {
            self.status = ReservationStatus::Pending.to_i32();
        }
    }
}

impl ToSql for ReservationQuery {
    /// The status must be one of the four, and both ends of the window must
    /// have their text.
    open spec fn sql_ready(&self) -> bool {
        &&& status_of(self.status as int) is Some
        &&& time_text(self.start, true) is Some
        &&& time_text(self.end, false) is Some
    }

    open spec fn sql(&self) -> Seq<char> {
        query_text(
            time_text(self.start, true)->0,
            time_text(self.end, false)->0,
            status_of(self.status as int)->0,
            self.user_id@,
            self.resource_id@,
            self.desc,
        )
    }

    fn to_sql(&self) -> (statement: String) {
        let status = self.get_status();
        let start = get_time_string(self.start.as_ref(), true).unwrap();
        let end = get_time_string(self.end.as_ref(), false).unwrap();
        query_sql(
            start.as_str(),
            end.as_str(),
            status,
            self.user_id.as_str(),
            self.resource_id.as_str(),
            self.desc,
        )
    }
}

} // verus!
