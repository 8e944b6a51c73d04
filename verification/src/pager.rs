//! Cursor pagination over a window of rows fetched one or two rows wider than
//! the page: the extra rows tell whether a page lies before and after it.

use std::collections::VecDeque;
use vstd::prelude::*;

verus! {

/// Where a page starts, how many rows it holds at most, and in which
/// direction the rows are ordered.
#[derive(Clone, Copy, Debug, PartialEq, Eq, Structural)]
pub struct PageInfo {
    pub cursor: Option<i64>,
    pub page_size: i64,
    pub desc: bool,
}

/// The cursors that lead away from a page. `total` is never computed.
#[derive(Clone, Copy, Debug, PartialEq, Eq, Structural)]
pub struct Pager {
    pub prev: Option<i64>,
    pub next: Option<i64>,
    pub total: Option<i64>,
}

/// A row that can serve as a pagination boundary.
pub trait Id {
    /// The ordering key of the row. An implementation says here what its
    /// `id` returns; where it says nothing, nothing is known of the key.
    open spec fn spec_id(&self) -> i64 {
        arbitrary()
    }

    /// The ordering key of the row.
    fn id(&self) -> (id: i64)
        ensures
            id == self.spec_id(),
    ;
}

/// The window without the cursor's own row: when a cursor was supplied the
/// first row of the window is that row, and it is not part of the page.
pub open spec fn rows_past_cursor<T>(info: PageInfo, window: Seq<T>) -> Seq<T> {
    if info.cursor is Some && window.len() > 0 {
        window.subrange(1, window.len() as int)
    } else {
        window
    }
}

/// Whether the window reaches past the page: more rows follow the cursor row
/// than one page holds.
pub open spec fn overflows<T>(info: PageInfo, window: Seq<T>) -> bool {
    rows_past_cursor(info, window).len() > info.page_size
}

/// The rows of the page: the window without the cursor row and, where the
/// window reaches past the page, without its last row.
pub open spec fn page_rows<T>(info: PageInfo, window: Seq<T>) -> Seq<T> {
    let rest = rows_past_cursor(info, window);
    if overflows(info, window) && rest.len() > 0 {
        rest.subrange(0, rest.len() as int - 1)
    } else {
        rest
    }
}

/// The cursor of the page before: the id of the first row after the cursor
/// row, absent without a cursor or when no row follows it.
pub open spec fn prev_cursor<T: Id>(info: PageInfo, window: Seq<T>) -> Option<i64> {
    let rest = rows_past_cursor(info, window);
    if info.cursor is Some && rest.len() > 0 {
        Some(rest[0].spec_id())
    } else {
        None
    }
}

/// The cursor of the page after: the id of the last row of the page, present
/// only where the window reaches past the page and the page holds a row.
pub open spec fn next_cursor<T: Id>(info: PageInfo, window: Seq<T>) -> Option<i64> {
    let page = page_rows(info, window);
    if overflows(info, window) && page.len() > 0 {
        Some(page[page.len() as int - 1].spec_id())
    } else {
        None
    }
}

/// The pager of a window: both cursors, and no total.
pub open spec fn pager_of<T: Id>(info: PageInfo, window: Seq<T>) -> Pager {
    Pager { prev: prev_cursor(info, window), next: next_cursor(info, window), total: None }
}

/// How many rows the storage is asked for: one more than a page, so that a
/// further page shows, and one more again for the cursor's own row where a
/// cursor was supplied.
pub open spec fn window_size(info: PageInfo) -> int {
    info.page_size + 1 + if info.cursor is Some {
        1int
    } else {
        0int
    }
}

/// What the storage hands back of the rows that lie at and beyond the
/// cursor: all of them, or the first `window_size` where there are more.
pub open spec fn fetched<T>(info: PageInfo, upstream: Seq<T>) -> Seq<T> {
    if upstream.len() <= window_size(info) {
        upstream
    } else {
        upstream.subrange(0, window_size(info))
    }
}

/// A page descriptor that can trim a fetched window to its page and step to
/// the neighbouring pages.
pub trait Paginator: Sized {
    /// The cursor, page size and direction of this descriptor.
    spec fn page(&self) -> PageInfo;

    /// This descriptor moved to `cursor`, everything else kept.
    spec fn at_cursor(&self, cursor: i64) -> Self;

    /// Trims `data` from the fetched window to the page and returns the
    /// cursors of the neighbouring pages.
    fn get_pager<T: Id>(&self, data: &mut VecDeque<T>) -> (pager: Pager)
        ensures
            pager == pager_of(self.page(), old(data)@),
            final(data)@ == page_rows(self.page(), old(data)@),
    ;

    /// The descriptor of the page after, if there is one.
    fn next_page(&self, pager: &Pager) -> (page: Option<Self>)
        ensures
            page == match pager.next {
                Some(cursor) => Some(self.at_cursor(cursor)),
                None => None,
            },
    ;

    /// The descriptor of the page before, if there is one.
    fn prev_page(&self, pager: &Pager) -> (page: Option<Self>)
        ensures
            page == match pager.prev {
                Some(cursor) => Some(self.at_cursor(cursor)),
                None => None,
            },
    ;
}

impl Paginator for PageInfo {
    open spec fn page(&self) -> PageInfo {
        *self
    }

    open spec fn at_cursor(&self, cursor: i64) -> PageInfo {
        PageInfo { cursor: Some(cursor), page_size: self.page_size, desc: self.desc }
    }

    fn get_pager<T: Id>(&self, data: &mut VecDeque<T>) -> (pager: Pager) {
        let has_prev = self.cursor.is_some();
        let prev = if has_prev {
            data.pop_front();
            if data.len() > 0 {
                Some(data[0].id())
            } else {
                None
            }
        } else {
            None
        };

        let has_next = self.page_size < 0 || data.len() as u128 > self.page_size as u128;
        let next = if has_next {
            data.pop_back();
            if data.len() > 0 {
                Some(data[data.len() - 1].id())
            } else {
                None
            }
        } else {
            None
        };

        Pager { prev, next, total: None }
    }

    fn next_page(&self, pager: &Pager) -> (page: Option<Self>) {
        match pager.next {
            Some(cursor) => Some(
                PageInfo { cursor: Some(cursor), page_size: self.page_size, desc: self.desc },
            ),
            None => None,
        }
    }

    fn prev_page(&self, pager: &Pager) -> (page: Option<Self>) {
        match pager.prev {
            Some(cursor) => Some(
                PageInfo { cursor: Some(cursor), page_size: self.page_size, desc: self.desc },
            ),
            None => None,
        }
    }
}

/// The first page. Asked for without a cursor and with a page size of at
/// least one, the page holds at most `page_size` rows, which are the first
/// rows upstream; no page lies before it; and a page lies after it exactly
/// when more than `page_size` rows exist upstream.
pub proof fn lemma_first_page<T: Id>(info: PageInfo, upstream: Seq<T>)
    requires
        info.cursor is None,
        info.page_size >= 1,
    ensures
        page_rows(info, fetched(info, upstream)).len() <= info.page_size,
        page_rows(info, fetched(info, upstream)) == upstream.subrange(
            0,
            page_rows(info, fetched(info, upstream)).len() as int,
        ),
        pager_of(info, fetched(info, upstream)).prev is None,
        pager_of(info, fetched(info, upstream)).next is Some <==> upstream.len() > info.page_size,
        pager_of(info, fetched(info, upstream)).total is None,
{
}

/// A later page. Asked for with a cursor and a page size of at least one,
/// where `upstream` starts with the cursor's own row: the page holds at most
/// `page_size` rows, which are the rows that follow the cursor row; the
/// cursor that leads back is the id of the first of them; and a page lies
/// after it exactly when more than `page_size` rows follow the cursor row.
pub proof fn lemma_later_page<T: Id>(info: PageInfo, upstream: Seq<T>)
    requires
        info.cursor is Some,
        info.page_size >= 1,
        upstream.len() >= 1,
    ensures
        page_rows(info, fetched(info, upstream)).len() <= info.page_size,
        page_rows(info, fetched(info, upstream)) == upstream.subrange(
            1,
            1 + page_rows(info, fetched(info, upstream)).len() as int,
        ),
        pager_of(info, fetched(info, upstream)).prev == if upstream.len() >= 2 {
            Some(upstream[1].spec_id())
        } else {
            None
        },
        pager_of(info, fetched(info, upstream)).next is Some <==> upstream.len() - 1
            > info.page_size,
{
}

/// With a page size of at least one, each cursor of a pager is the id of a
/// row of the page it was computed with: `prev` the first row's, `next` the
/// last row's.
pub proof fn lemma_cursors_bound_the_page<T: Id>(info: PageInfo, window: Seq<T>)
    requires
        info.page_size >= 1,
    ensures
        pager_of(info, window).prev matches Some(id) ==> page_rows(info, window).len() > 0 && id
            == page_rows(info, window)[0].spec_id(),
        pager_of(info, window).next matches Some(id) ==> page_rows(info, window).len() > 0 && id
            == page_rows(info, window).last().spec_id(),
{
}

/// Forward, then back. From any descriptor whose pager has a `next`, the
/// next page's descriptor starts at that cursor; over a window that holds the
/// cursor row and at least one more, the way back leads to a descriptor with
/// the same page size and direction whose cursor is the id of the first row
/// of the next page: the row at the boundary, not the cursor the walk began
/// with.
pub proof fn lemma_next_then_prev<T: Id>(info: PageInfo, pager: Pager, window: Seq<T>)
    requires
        pager.next is Some,
        window.len() >= 2,
    ensures
        info.at_cursor(pager.next->0).cursor == pager.next,
        pager_of(info.at_cursor(pager.next->0), window).prev == Some(window[1].spec_id()),
        info.at_cursor(pager.next->0).at_cursor(window[1].spec_id()) == (PageInfo {
            cursor: Some(window[1].spec_id()),
            page_size: info.page_size,
            desc: info.desc,
        }),
        page_rows(info.at_cursor(pager.next->0), window).len() > 0 ==> page_rows(
            info.at_cursor(pager.next->0),
            window,
        )[0].spec_id() == window[1].spec_id(),
{
}

/// Back, then forward. From any descriptor whose pager has a `prev`, the
/// previous page's descriptor starts at that cursor; over a full window, of
/// `window_size` rows with a page size of at least one, the way forward
/// leads to a descriptor with the same page size and direction whose cursor
/// is the id of the last row of the previous page.
pub proof fn lemma_prev_then_next<T: Id>(info: PageInfo, pager: Pager, window: Seq<T>)
    requires
        pager.prev is Some,
        info.page_size >= 1,
        window.len() == window_size(info.at_cursor(pager.prev->0)),
    ensures
        info.at_cursor(pager.prev->0).cursor == pager.prev,
        pager_of(info.at_cursor(pager.prev->0), window).next == Some(
            window[info.page_size as int].spec_id(),
        ),
        page_rows(info.at_cursor(pager.prev->0), window).last().spec_id()
            == window[info.page_size as int].spec_id(),
        info.at_cursor(pager.prev->0).at_cursor(window[info.page_size as int].spec_id())
            == (PageInfo {
            cursor: Some(window[info.page_size as int].spec_id()),
            page_size: info.page_size,
            desc: info.desc,
        }),
{
}

} // verus!
