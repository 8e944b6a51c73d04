//! Listing reservations in the order of their ids, one page at a time.

use crate::error::{Error, ErrorView};
use crate::pager::{page_rows, pager_of, Id, PageInfo, Pager, Paginator};
use crate::status::{effective_status, status_of, ReservationStatus};
use crate::sql::{direction, given, given_text, owner_condition, push_owner_condition};
use crate::text::{decimal, push_decimal};
use crate::{Normalizer, ToSql, Validator};
use std::collections::VecDeque;
use vstd::prelude::*;
use vstd::std_specs::convert::FromSpecImpl;
use vstd::string::StringExecFns;

verus! {

/// The smallest page that a filter may ask for.
pub const MIN_PAGE_SIZE: i64 = 10;

/// The largest page that a filter may ask for.
pub const MAX_PAGE_SIZE: i64 = 100;

/// A listing of reservations by id: of one status, optionally of one user
/// and of one resource, from a cursor on, in pages of `page_size` rows.
/// An empty `user_id` or `resource_id` stands for any.
#[derive(Debug, Clone, PartialEq)]
pub struct ReservationFilter {
    pub resource_id: String,
    pub user_id: String,
    pub status: i32,
    pub cursor: Option<i64>,
    pub page_size: i64,
    pub desc: bool,
}

/// The cursors that lead away from a page of a filter.
#[derive(Clone, Copy, Debug, PartialEq, Eq, Structural)]
pub struct FilterPager {
    pub prev: Option<i64>,
    pub next: Option<i64>,
    pub total: Option<i64>,
}

/// The pager of a filter with the cursors of `pager`.
pub open spec fn filter_pager(pager: Pager) -> FilterPager {
    FilterPager { prev: pager.prev, next: pager.next, total: pager.total }
}

/// The pager with the cursors of a filter's pager.
pub open spec fn plain_pager(pager: FilterPager) -> Pager {
    Pager { prev: pager.prev, next: pager.next, total: pager.total }
}

impl From<Pager> for FilterPager {
    fn from(pager: Pager) -> (converted: FilterPager) {
        FilterPager { prev: pager.prev, next: pager.next, total: pager.total }
    }
}

impl FromSpecImpl<Pager> for FilterPager {
    open spec fn obeys_from_spec() -> bool {
        true
    }

    open spec fn from_spec(pager: Pager) -> FilterPager {
        filter_pager(pager)
    }
}

impl From<&FilterPager> for Pager {
    fn from(pager: &FilterPager) -> (converted: Pager) {
        Pager { prev: pager.prev, next: pager.next, total: pager.total }
    }
}

impl FromSpecImpl<&FilterPager> for Pager {
    open spec fn obeys_from_spec() -> bool {
        true
    }

    open spec fn from_spec(pager: &FilterPager) -> Pager {
        plain_pager(*pager)
    }
}

/// What the storage is asked for on behalf of a filter: rows of `status`,
/// of `user_id` and of `resource_id` where these are given, whose id is at
/// or past `cursor` in the direction of the listing, ordered by id in that
/// direction, `limit` rows at most.
#[derive(Debug, Clone, PartialEq)]
pub struct FilterPredicate {
    pub status: ReservationStatus,
    pub user_id: Option<String>,
    pub resource_id: Option<String>,
    pub cursor: i64,
    pub desc: bool,
    pub limit: i64,
}

/// The statement of an ascending listing. Its parameters are, in order, the
/// status, the cursor, the user or null, the resource or null, and the limit.
pub const FILTER_ASCENDING: &'static str =
    "SELECT * FROM rsvp.reservations WHERE status = $1::rsvp.reservation_status AND id >= $2 AND ($3::text IS NULL OR user_id = $3) AND ($4::text IS NULL OR resource_id = $4) ORDER BY id ASC LIMIT $5";

/// The statement of a descending listing, with the same parameters.
pub const FILTER_DESCENDING: &'static str =
    "SELECT * FROM rsvp.reservations WHERE status = $1::rsvp.reservation_status AND id <= $2 AND ($3::text IS NULL OR user_id = $3) AND ($4::text IS NULL OR resource_id = $4) ORDER BY id DESC LIMIT $5";

impl ReservationFilter {
    /// The cursor, page size and direction of the filter.
    pub open spec fn page(&self) -> PageInfo {
        PageInfo { cursor: self.cursor, page_size: self.page_size, desc: self.desc }
    }

    /// The filter moved to `cursor`, everything else kept.
    pub open spec fn at_cursor(&self, cursor: i64) -> ReservationFilter {
        ReservationFilter {
            resource_id: self.resource_id,
            user_id: self.user_id,
            status: self.status,
            cursor: Some(cursor),
            page_size: self.page_size,
            desc: self.desc,
        }
    }

    /// Where the listing starts: at the cursor, or where there is none at
    /// the lowest id of an ascending listing and at the highest id of a
    /// descending one.
    pub open spec fn start_id(&self) -> i64 {
        match self.cursor {
            Some(cursor) => cursor,
            None => if self.desc {
                i64::MAX
            } else {
                0
            },
        }
    }

    /// How many rows are fetched: a page, one row more to see whether a page
    /// follows, and where a cursor is given one more for the cursor's row.
    pub open spec fn limit(&self) -> int {
        crate::pager::window_size(self.page())
    }

    /// The predicate of the filter.
    pub open spec fn predicate_of(&self) -> FilterPredicate {
        FilterPredicate {
            status: status_of(self.status as int)->0,
            user_id: given(self.user_id),
            resource_id: given(self.resource_id),
            cursor: self.start_id(),
            desc: self.desc,
            limit: self.limit() as i64,
        }
    }

    /// Trims `data` from the fetched window to the page and returns the
    /// cursors of the neighbouring pages.
    pub fn get_pager<T: Id>(&self, data: &mut VecDeque<T>) -> (pager: FilterPager)
        ensures
            pager == filter_pager(pager_of(self.page(), old(data)@)),
            final(data)@ == page_rows(self.page(), old(data)@),
    {
        let page_info = self.page_info();
        let pager = page_info.get_pager(data);
        FilterPager::from(pager)
    }

    pub fn get_cursor(&self) -> (cursor: i64)
        ensures
            cursor == self.start_id(),
    {
        match self.cursor {
            Some(cursor) => cursor,
            None => if self.desc {
                i64::MAX
            } else {
                0
            },
        }
    }

    pub fn get_status(&self) -> (status: ReservationStatus)
        requires
            status_of(self.status as int) is Some,
        ensures
            Some(status) == status_of(self.status as int),
    {
        ReservationStatus::from_i32(self.status).unwrap()
    }

    /// The filter of the page after, if there is one: the same filter at the
    /// pager's `next` cursor.
    pub fn next_page(&self, pager: &FilterPager) -> (page: Option<ReservationFilter>)
        ensures
            page == match pager.next {
                Some(cursor) => Some(self.at_cursor(cursor)),
                None => None,
            },
    {
        let page_info = self.page_info();
        let pager = Pager::from(pager);
        match page_info.next_page(&pager) {
            Some(page_info) => Some(
                ReservationFilter {
                    resource_id: self.resource_id.clone(),
                    user_id: self.user_id.clone(),
                    status: self.status,
                    cursor: page_info.cursor,
                    page_size: page_info.page_size,
                    desc: page_info.desc,
                },
            ),
            None => None,
        }
    }

    /// The filter of the page before, if there is one: the same filter at
    /// the pager's `prev` cursor.
    pub fn prev_page(&self, pager: &FilterPager) -> (page: Option<ReservationFilter>)
        ensures
            page == match pager.prev {
                Some(cursor) => Some(self.at_cursor(cursor)),
                None => None,
            },
    {
        let page_info = self.page_info();
        let pager = Pager::from(pager);
        match page_info.prev_page(&pager) {
            Some(page_info) => Some(
                ReservationFilter {
                    resource_id: self.resource_id.clone(),
                    user_id: self.user_id.clone(),
                    status: self.status,
                    cursor: page_info.cursor,
                    page_size: page_info.page_size,
                    desc: page_info.desc,
                },
            ),
            None => None,
        }
    }

    pub fn page_info(&self) -> (info: PageInfo)
        ensures
            info == self.page(),
    {
        PageInfo { cursor: self.cursor, page_size: self.page_size, desc: self.desc }
    }

    /// What the storage is asked for on behalf of this filter.
    pub fn predicate(&self) -> (predicate: FilterPredicate)
        requires
            self.sql_ready(),
        ensures
            predicate == self.predicate_of(),
    {
        let extra: i64 = if self.cursor.is_none() {
            0
        } else {
            1
        };
        FilterPredicate {
            status: self.get_status(),
            user_id: given_text(&self.user_id),
            resource_id: given_text(&self.resource_id),
            cursor: self.get_cursor(),
            desc: self.desc,
            limit: self.page_size + 1 + extra,
        }
    }
}

impl FilterPredicate {
    /// The statement that asks the storage for the rows of the predicate.
    /// It depends on the direction alone: every value of the request is a
    /// parameter, and none is part of the statement.
    pub open spec fn statement_text(desc: bool) -> Seq<char> {
        if desc {
            FILTER_DESCENDING@
        } else {
            FILTER_ASCENDING@
        }
    }

    pub fn statement(&self) -> (text: &'static str)
        ensures
            text@ == Self::statement_text(self.desc),
    {
        if self.desc {
            FILTER_DESCENDING
        } else {
            FILTER_ASCENDING
        }
    }
}

/// Builds a filter step by step. A filter that nothing was set on lists the
/// reservations of every user and resource, ascending from the start, in
/// pages of ten.
#[derive(Debug, Clone)]
pub struct ReservationFilterBuilder {
    draft: ReservationFilter,
}

impl View for ReservationFilterBuilder {
    type V = ReservationFilter;

    /// The filter as it has been set so far.
    closed spec fn view(&self) -> ReservationFilter {
        self.draft
    }
}

impl Default for ReservationFilterBuilder {
    fn default() -> (builder: ReservationFilterBuilder)
        ensures
            builder@.resource_id@.len() == 0,
            builder@.user_id@.len() == 0,
            builder@.status == 0,
            builder@.cursor is None,
            builder@.page_size == MIN_PAGE_SIZE,
            !builder@.desc,
    {
        ReservationFilterBuilder {
            draft: ReservationFilter {
                resource_id: String::new(),
                user_id: String::new(),
                status: 0,
                cursor: None,
                page_size: MIN_PAGE_SIZE,
                desc: false,
            },
        }
    }
}

impl ReservationFilterBuilder {
    pub fn resource_id(&mut self, value: &str) -> (builder: &mut ReservationFilterBuilder)
        ensures
            builder@.resource_id@ == value@,
            builder@ == (ReservationFilter { resource_id: builder@.resource_id, ..old(self)@ }),
            *final(self) == *final(builder),
    {
        self.draft.resource_id = value.to_owned();
        self
    }

    pub fn user_id(&mut self, value: &str) -> (builder: &mut ReservationFilterBuilder)
        ensures
            builder@.user_id@ == value@,
            builder@ == (ReservationFilter { user_id: builder@.user_id, ..old(self)@ }),
            *final(self) == *final(builder),
    {
        self.draft.user_id = value.to_owned();
        self
    }

    pub fn status(&mut self, value: i32) -> (builder: &mut ReservationFilterBuilder)
        ensures
            builder@ == (ReservationFilter { status: value, ..old(self)@ }),
            *final(self) == *final(builder),
    {
        self.draft.status = value;
        self
    }

    pub fn cursor(&mut self, value: i64) -> (builder: &mut ReservationFilterBuilder)
        ensures
            builder@ == (ReservationFilter { cursor: Some(value), ..old(self)@ }),
            *final(self) == *final(builder),
    {
        self.draft.cursor = Some(value);
        self
    }

    pub fn page_size(&mut self, value: i64) -> (builder: &mut ReservationFilterBuilder)
        ensures
            builder@ == (ReservationFilter { page_size: value, ..old(self)@ }),
            *final(self) == *final(builder),
    {
        self.draft.page_size = value;
        self
    }

    pub fn desc(&mut self, value: bool) -> (builder: &mut ReservationFilterBuilder)
        ensures
            builder@ == (ReservationFilter { desc: value, ..old(self)@ }),
            *final(self) == *final(builder),
    {
        self.draft.desc = value;
        self
    }

    /// The filter as it was set, checked and with its defaults filled in.
    pub fn build(&self) -> (built: Result<ReservationFilter, Error>)
        ensures
            match built {
                Ok(f) => self@.violation() is None && f == self@.normal_form(),
                Err(e) => self@.violation() == Some(e@),
            },
    {
        let mut filter = ReservationFilter {
            resource_id: self.draft.resource_id.clone(),
            user_id: self.draft.user_id.clone(),
            status: self.draft.status,
            cursor: self.draft.cursor,
            page_size: self.draft.page_size,
            desc: self.draft.desc,
        };
        match filter.normalize() {
            Ok(_) => Ok(filter),
            Err(e) => Err(e),
        }
    }
}

impl Validator for ReservationFilter {
    open spec fn violation(&self) -> Option<ErrorView> {
        if self.page_size < MIN_PAGE_SIZE || self.page_size > MAX_PAGE_SIZE {
            Some(ErrorView::InvalidPageSize(self.page_size))
        } else if self.cursor is Some && self.cursor->0 < 0 {
            Some(ErrorView::InvalidCursor(self.cursor->0))
        } else if status_of(self.status as int) is None {
            Some(ErrorView::InvalidStatus(self.status))
        } else {
            None
        }
    }

    fn validate(&self) -> (checked: Result<(), Error>) {
        if self.page_size < MIN_PAGE_SIZE || self.page_size > MAX_PAGE_SIZE {
            return Err(Error::InvalidPageSize(self.page_size));
        }
        if let Some(cursor) = self.cursor {
            if cursor < 0 {
                return Err(Error::InvalidCursor(cursor));
            }
        }
        if ReservationStatus::from_i32(self.status).is_none() {
            return Err(Error::InvalidStatus(self.status));
        }
        Ok(())
    }
}

/// A page size outside 10 to 100 is what a filter is refused for, whatever
/// else it holds; a filter within that range is never refused for its page
/// size.
pub proof fn lemma_page_size_is_checked_first(wanted: ReservationFilter)
    ensures
        wanted.page_size < 10 || wanted.page_size > 100 <==> wanted.violation() == Some(
            ErrorView::InvalidPageSize(wanted.page_size),
        ),
{
}

impl Normalizer for ReservationFilter {
    open spec fn normal_form(&self) -> ReservationFilter {
        ReservationFilter {
            resource_id: self.resource_id,
            user_id: self.user_id,
            status: effective_status(self.status),
            cursor: self.cursor,
            page_size: self.page_size,
            desc: self.desc,
        }
    }

    fn do_normalize(&mut self) {
        if self.status == ReservationStatus::Unknown.to_i32() {
            self.status = ReservationStatus::Pending.to_i32();
        }
    }
}

impl ToSql for ReservationFilter {
    /// The status must be one of the four, and the limit must fit.
    open spec fn sql_ready(&self) -> bool {
        status_of(self.status as int) is Some && self.page_size <= i64::MAX - 2
    }

    /// The listing written out in full, each value in its place: text as a
    /// quoted literal, numbers in decimal.
    open spec fn sql(&self) -> Seq<char> {
        "SELECT * FROM rsvp.reservations WHERE status = '"@ + status_of(
            self.status as int,
        )->0.name() + "'::rsvp.reservation_status AND "@ + (if self.desc {
            "id <= "@
        } else {
            "id >= "@
        }) + decimal(self.start_id() as int) + " AND "@ + owner_condition(
            self.user_id@,
            self.resource_id@,
        ) + " ORDER BY id "@ + direction(self.desc) + " LIMIT "@ + decimal(self.limit())
    }

    fn to_sql(&self) -> (statement: String) {
        let middle_plus: i64 = if self.cursor.is_none() {
            0
        } else {
            1
        };
        let limit = self.page_size + 1 + middle_plus;
        let status = self.get_status();

        let mut sql = String::from_str("SELECT * FROM rsvp.reservations WHERE status = '");
        sql.append(status.as_str());
        sql.append("'::rsvp.reservation_status AND ");
        if self.desc {
            sql.append("id <= ");
        } else {
            sql.append("id >= ");
        }
        push_decimal(&mut sql, self.get_cursor());
        sql.append(" AND ");
        push_owner_condition(&mut sql, self.user_id.as_str(), self.resource_id.as_str());
        sql.append(" ORDER BY id ");
        if self.desc {
            sql.append("DESC");
        } else {
            sql.append("ASC");
        }
        sql.append(" LIMIT ");
        push_decimal(&mut sql, limit);
        sql
    }
}

} // verus!
