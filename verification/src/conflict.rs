//! Reading the storage's report of two overlapping reservations.
//!
//! The report names, for the row that was refused and for the row that was
//! in its way, the key columns and the key values: a resource and a
//! half-open range of two timestamps.

use crate::text::{
    chars_of, find_char, first_index_of, same_text, string_of, strip_char, without_char,
};
use crate::time::{parse_datetime, parsed_datetime, Timestamp};
use regex::Regex;
use std::convert::Infallible;
use vstd::prelude::*;
use vstd::std_specs::cmp::PartialEqSpecImpl;

verus! {

/// One clause of the report: two column names in brackets, an equals sign,
/// and in brackets a value and the inside of a range literal up to its
/// closing bracket. The four groups are, in order, the first column, the
/// second column, the first value and the second value.
pub const CLAUSE_PATTERN: &'static str =
    "\\((?P<k1>[a-zA-Z0-9_-]+)\\s*,\\s*(?P<k2>[a-zA-Z0-9_-]+)\\)=\\((?P<v1>[a-zA-Z0-9_-]+)\\s*,\\s*\\[(?P<v2>[^\\)\\]]+)";

/// The column that holds the resource of a reservation.
pub const RESOURCE_COLUMN: &'static str = "resource_id";

/// The column that holds the time range of a reservation.
pub const TIMESPAN_COLUMN: &'static str = "timespan";

/// What the regex crate finds of `pattern` in `text`: nothing where
/// `Regex::new` refuses the pattern; otherwise, for each match that
/// `Regex::captures_iter` yields, in order, what `Captures::iter` yields:
/// the text of the whole match and then of each capture group, absent where
/// a group took no part in the match.
pub uninterp spec fn regex_captures(pattern: Seq<char>, text: Seq<char>) -> Option<
    Seq<Seq<Option<Seq<char>>>>,
>;

/// Compiles `pattern` with `regex::Regex::new` and walks `text` with
/// `Regex::captures_iter`, copying out of each `Captures` every group that
/// `Captures::iter` yields, by `Match::as_str`. The contract only names the
/// outcome.
#[verifier::external_body]
fn captures_with_regex(pattern: &str, text: &str) -> (found: Option<Vec<Vec<Option<String>>>>)
    ensures
        found.deep_view() == regex_captures(pattern@, text@),
{
    match Regex::new(pattern) {
        Ok(re) => Some(
            re.captures_iter(text).map(
                |c| c.iter().map(|group| group.map(|m| m.as_str().to_string())).collect(),
            ).collect(),
        ),
        Err(_) => None,
    }
}

/// The columns of one clause with their values, in the order in which they
/// were entered. A column entered again takes the later value.
#[derive(Debug, Clone)]
pub struct FieldMap {
    entries: Vec<(String, String)>,
}

/// The map that a list of entries stands for: each entry, in order, written
/// over what came before.
pub open spec fn entries_map(entries: Seq<(Seq<char>, Seq<char>)>) -> Map<Seq<char>, Seq<char>>
    decreases entries.len(),
{
    if entries.len() == 0 {
        Map::empty()
    } else {
        entries_map(entries.drop_last()).insert(entries.last().0, entries.last().1)
    }
}

impl View for FieldMap {
    type V = Map<Seq<char>, Seq<char>>;

    closed spec fn view(&self) -> Map<Seq<char>, Seq<char>> {
        entries_map(self.entries.deep_view())
    }
}

impl FieldMap {
    pub fn new() -> (fields: FieldMap)
        ensures
            fields@ == Map::<Seq<char>, Seq<char>>::empty(),
    {
        FieldMap { entries: Vec::new() }
    }

    pub fn insert(&mut self, key: String, value: String)
        ensures
            final(self)@ == old(self)@.insert(key@, value@),
    {
        let ghost before = self.entries.deep_view();
        self.entries.push((key, value));
        assert(self.entries.deep_view().drop_last() == before);
    }

    pub fn get(&self, key: &str) -> (value: Option<&String>)
        ensures
            match value {
                Some(v) => self@.contains_key(key@) && self@[key@] == v@,
                None => !self@.contains_key(key@),
            },
    {
        let ghost all = self.entries.deep_view();
        let mut i: usize = self.entries.len();
        assert(all.take(i as int) == all);
        while i > 0
            invariant
                i <= self.entries.len(),
                all == self.entries.deep_view(),
                entries_map(all).contains_key(key@) == entries_map(all.take(i as int)).contains_key(
                    key@,
                ),
                entries_map(all).contains_key(key@) ==> entries_map(all)[key@] == entries_map(
                    all.take(i as int),
                )[key@],
            decreases i,
        {
            i -= 1;
            assert(all.take(i + 1).drop_last() == all.take(i as int));
            if same_text(self.entries[i].0.as_str(), key) {
                return Some(&self.entries[i].1);
            }
        }
        None
    }
}

/// The two clauses of a report as they were read: the columns of the row
/// that was refused and those of the row that was in its way.
#[derive(Debug, Clone)]
pub struct ParsedInfo {
    pub new: FieldMap,
    pub old: FieldMap,
}

/// What a `ParsedInfo` holds.
pub struct ParsedInfoView {
    pub new: Map<Seq<char>, Seq<char>>,
    pub old: Map<Seq<char>, Seq<char>>,
}

impl View for ParsedInfo {
    type V = ParsedInfoView;

    open spec fn view(&self) -> ParsedInfoView {
        ParsedInfoView { new: self.new@, old: self.old@ }
    }
}

/// The columns of one clause, from the groups of its match: the whole match
/// and the four groups of the pattern. The first column goes with the first
/// value, then the second column with the second value. A clause needs all
/// four groups.
pub open spec fn clause_fields(groups: Seq<Option<Seq<char>>>) -> Option<
    Map<Seq<char>, Seq<char>>,
> {
    if groups.len() == 5 && groups[1] is Some && groups[2] is Some && groups[3] is Some
        && groups[4] is Some {
        Some(
            Map::<Seq<char>, Seq<char>>::empty().insert(groups[1]->0, groups[3]->0).insert(
                groups[2]->0,
                groups[4]->0,
            ),
        )
    } else {
        None
    }
}

/// The two clauses of a report: there must be exactly two, the first for the
/// refused row and the second for the row in its way.
pub open spec fn clauses_info(found: Seq<Seq<Option<Seq<char>>>>) -> Option<ParsedInfoView> {
    if found.len() == 2 && clause_fields(found[0]) is Some && clause_fields(found[1]) is Some {
        Some(ParsedInfoView { new: clause_fields(found[0])->0, old: clause_fields(found[1])->0 })
    } else {
        None
    }
}

/// The two clauses that a report holds, if it holds exactly two.
pub open spec fn parsed_info(text: Seq<char>) -> Option<ParsedInfoView> {
    match regex_captures(CLAUSE_PATTERN@, text) {
        Some(found) => clauses_info(found),
        None => None,
    }
}

fn fields_of_clause(groups: &Vec<Option<String>>) -> (fields: Result<FieldMap, ()>)
    ensures
        match fields {
            Ok(f) => clause_fields(groups.deep_view()) == Some(f@),
            Err(_) => clause_fields(groups.deep_view()) is None,
        },
{
    if groups.len() != 5 {
        return Err(());
    }
    match (&groups[1], &groups[2], &groups[3], &groups[4]) {
        (Some(k1), Some(k2), Some(v1), Some(v2)) => {
            let mut fields = FieldMap::new();
            fields.insert(k1.clone(), v1.clone());
            fields.insert(k2.clone(), v2.clone());
            Ok(fields)
        },
        _ => Err(()),
    }
}

impl ParsedInfo {
    /// Builds the two clauses from what the pattern found in a report.
    pub fn from_captures(found: &Vec<Vec<Option<String>>>) -> (info: Result<ParsedInfo, ()>)
        ensures
            match info {
                Ok(i) => clauses_info(found.deep_view()) == Some(i@),
                Err(_) => clauses_info(found.deep_view()) is None,
            },
    {
        if found.len() != 2 {
            return Err(());
        }
        let new = match fields_of_clause(&found[0]) {
            Ok(fields) => fields,
            Err(_) => {
                return Err(());
            },
        };
        let old = match fields_of_clause(&found[1]) {
            Ok(fields) => fields,
            Err(_) => {
                return Err(());
            },
        };
        Ok(ParsedInfo { new, old })
    }

    /// Reads the two clauses of a report.
    pub fn from_str(s: &str) -> (info: Result<ParsedInfo, ()>)
        ensures
            match info {
                Ok(i) => parsed_info(s@) == Some(i@),
                Err(_) => parsed_info(s@) is None,
            },
    {
        match captures_with_regex(CLAUSE_PATTERN, s) {
            Some(found) => ParsedInfo::from_captures(&found),
            None => Err(()),
        }
    }
}

/// One side of a conflict: the resource and the half-open window
/// `[start, end)` of a reservation.
#[derive(Debug, Clone)]
pub struct ReservationWindow {
    pub rid: String,
    pub start: Timestamp,
    pub end: Timestamp,
}

/// The two reservations that collide: `new` is the one that was refused,
/// `old` the one that was in its way.
#[derive(Debug, Clone)]
pub struct ReservationConflict {
    pub new: ReservationWindow,
    pub old: ReservationWindow,
}

/// What is known of a conflict: the two windows, or the storage's text where
/// it could not be read.
#[derive(Debug, Clone)]
pub enum ReservationConflictInfo {
    Parsed(ReservationConflict),
    Unparsed(String),
}

/// What a `ReservationWindow` holds.
pub struct WindowView {
    pub rid: Seq<char>,
    pub start: Timestamp,
    pub end: Timestamp,
}

/// What a `ReservationConflict` holds.
pub struct ConflictView {
    pub new: WindowView,
    pub old: WindowView,
}

/// What a `ReservationConflictInfo` holds.
pub enum ConflictInfoView {
    Parsed(ConflictView),
    Unparsed(Seq<char>),
}

impl View for ReservationWindow {
    type V = WindowView;

    open spec fn view(&self) -> WindowView {
        WindowView { rid: self.rid@, start: self.start, end: self.end }
    }
}

impl View for ReservationConflict {
    type V = ConflictView;

    open spec fn view(&self) -> ConflictView {
        ConflictView { new: self.new@, old: self.old@ }
    }
}

impl View for ReservationConflictInfo {
    type V = ConflictInfoView;

    open spec fn view(&self) -> ConflictInfoView {
        match self {
            ReservationConflictInfo::Parsed(conflict) => ConflictInfoView::Parsed(conflict@),
            ReservationConflictInfo::Unparsed(text) => ConflictInfoView::Unparsed(text@),
        }
    }
}

/// The window that the columns of one clause describe. The clause must hold
/// a resource and a time range; the range, its double quotes taken out, must
/// hold a comma, with a timestamp before the first comma and a timestamp
/// after it.
pub open spec fn window_of(fields: Map<Seq<char>, Seq<char>>) -> Option<WindowView> {
    if fields.contains_key(TIMESPAN_COLUMN@) && fields.contains_key(RESOURCE_COLUMN@) {
        let span = without_char(fields[TIMESPAN_COLUMN@], '"');
        match first_index_of(span, ',') {
            Some(comma) => match (
                parsed_datetime(span.subrange(0, comma)),
                parsed_datetime(span.subrange(comma + 1, span.len() as int)),
            ) {
                (Some(start), Some(end)) => Some(
                    WindowView { rid: fields[RESOURCE_COLUMN@], start, end },
                ),
                _ => None,
            },
            None => None,
        }
    } else {
        None
    }
}

/// The conflict that two clauses describe: both must describe a window.
pub open spec fn conflict_of_info(info: ParsedInfoView) -> Option<ConflictView> {
    match (window_of(info.new), window_of(info.old)) {
        (Some(new), Some(old)) => Some(ConflictView { new, old }),
        _ => None,
    }
}

/// The conflict that a report describes, if it can be read.
pub open spec fn conflict_of(text: Seq<char>) -> Option<ConflictView> {
    match parsed_info(text) {
        Some(info) => conflict_of_info(info),
        None => None,
    }
}

/// What is known of a conflict from its report: the two windows in the
/// order of the report, or the report itself.
pub open spec fn conflict_info(text: Seq<char>) -> ConflictInfoView {
    match conflict_of(text) {
        Some(conflict) => ConflictInfoView::Parsed(conflict),
        None => ConflictInfoView::Unparsed(text),
    }
}

impl ReservationWindow {
    /// Builds the window from the columns of one clause.
    pub fn try_from(value: FieldMap) -> (window: Result<ReservationWindow, ()>)
        ensures
            match window {
                Ok(w) => window_of(value@) == Some(w@),
                Err(_) => window_of(value@) is None,
            },
    {
        let timespan = match value.get(TIMESPAN_COLUMN) {
            Some(text) => text,
            None => {
                return Err(());
            },
        };
        let rid = match value.get(RESOURCE_COLUMN) {
            Some(text) => text.clone(),
            None => {
                return Err(());
            },
        };
        let span = strip_char(&chars_of(timespan.as_str()), '"');
        let comma = match find_char(&span, ',') {
            Some(at) => at,
            None => {
                return Err(());
            },
        };
        let start_text = string_of(&span, 0, comma);
        let end_text = string_of(&span, comma + 1, span.len());
        let start = match parse_datetime(start_text.as_str()) {
            Ok(t) => t,
            Err(_) => {
                return Err(());
            },
        };
        let end = match parse_datetime(end_text.as_str()) {
            Ok(t) => t,
            Err(_) => {
                return Err(());
            },
        };
        Ok(ReservationWindow { rid, start, end })
    }
}

impl ReservationConflict {
    /// Builds the conflict from the two clauses of a report.
    pub fn try_from(value: ParsedInfo) -> (conflict: Result<ReservationConflict, ()>)
        ensures
            match conflict {
                Ok(c) => conflict_of_info(value@) == Some(c@),
                Err(_) => conflict_of_info(value@) is None,
            },
    {
        let ParsedInfo { new, old } = value;
        let new = match ReservationWindow::try_from(new) {
            Ok(w) => w,
            Err(_) => {
                return Err(());
            },
        };
        let old = match ReservationWindow::try_from(old) {
            Ok(w) => w,
            Err(_) => {
                return Err(());
            },
        };
        Ok(ReservationConflict { new, old })
    }

    /// Reads the conflict that a report describes.
    pub fn from_str(s: &str) -> (conflict: Result<ReservationConflict, ()>)
        ensures
            match conflict {
                Ok(c) => conflict_of(s@) == Some(c@),
                Err(_) => conflict_of(s@) is None,
            },
    {
        match ParsedInfo::from_str(s) {
            Ok(info) => ReservationConflict::try_from(info),
            Err(_) => Err(()),
        }
    }
}

impl ReservationConflictInfo {
    /// Reads a report: the two windows where it can be read, the report
    /// itself where it cannot.
    pub fn parse(s: &str) -> (info: ReservationConflictInfo)
        ensures
            info@ == conflict_info(s@),
    {
        match ReservationConflict::from_str(s) {
            Ok(conflict) => ReservationConflictInfo::Parsed(conflict),
            Err(_) => ReservationConflictInfo::Unparsed(s.to_owned()),
        }
    }

    /// Reads a report, as `parse` does. This never fails.
    pub fn from_str(s: &str) -> (info: Result<ReservationConflictInfo, Infallible>)
        ensures
            info matches Ok(i) && i@ == conflict_info(s@),
    {
        Ok(ReservationConflictInfo::parse(s))
    }
}

impl PartialEq for ReservationWindow {
    fn eq(&self, other: &Self) -> (equal: bool) {
        self.rid == other.rid && self.start == other.start && self.end == other.end
    }
}

impl PartialEqSpecImpl for ReservationWindow {
    open spec fn obeys_eq_spec() -> bool {
        true
    }

    open spec fn eq_spec(&self, other: &Self) -> bool {
        self@ == other@
    }
}

impl PartialEq for ReservationConflict {
    fn eq(&self, other: &Self) -> (equal: bool) {
        self.new == other.new && self.old == other.old
    }
}

impl PartialEqSpecImpl for ReservationConflict {
    open spec fn obeys_eq_spec() -> bool {
        true
    }

    open spec fn eq_spec(&self, other: &Self) -> bool {
        self@ == other@
    }
}

impl PartialEq for ReservationConflictInfo {
    fn eq(&self, other: &Self) -> (equal: bool) {
        match (self, other) {
            (ReservationConflictInfo::Parsed(a), ReservationConflictInfo::Parsed(b)) => *a == *b,
            (ReservationConflictInfo::Unparsed(a), ReservationConflictInfo::Unparsed(b)) => *a
                == *b,
            _ => false,
        }
    }
}

impl PartialEqSpecImpl for ReservationConflictInfo {
    open spec fn obeys_eq_spec() -> bool {
        true
    }

    open spec fn eq_spec(&self, other: &Self) -> bool {
        self@ == other@
    }
}

impl Eq for ReservationWindow {

}

impl Eq for ReservationConflict {

}

impl Eq for ReservationConflictInfo {

}

/// The window that the groups of one clause describe, if the clause is well
/// formed.
pub open spec fn clause_window(groups: Seq<Option<Seq<char>>>) -> Option<WindowView> {
    match clause_fields(groups) {
        Some(fields) => window_of(fields),
        None => None,
    }
}

/// Whether a report holds exactly two clauses and both are well formed.
pub open spec fn has_two_clauses(text: Seq<char>) -> bool {
    &&& regex_captures(CLAUSE_PATTERN@, text) matches Some(found)
    &&& found.len() == 2
    &&& clause_window(found[0]) is Some
    &&& clause_window(found[1]) is Some
}

/// Reading a report is total. A report with exactly two well-formed clauses
/// gives the two windows, the first clause as `new` and the second as `old`;
/// every other text is kept unread, as it was. Reading the kept text again
/// changes nothing.
pub proof fn lemma_conflict_info(text: Seq<char>)
    ensures
        has_two_clauses(text) ==> conflict_info(text) == ConflictInfoView::Parsed(
            ConflictView {
                new: clause_window(regex_captures(CLAUSE_PATTERN@, text)->0[0])->0,
                old: clause_window(regex_captures(CLAUSE_PATTERN@, text)->0[1])->0,
            },
        ),
        !has_two_clauses(text) ==> conflict_info(text) == ConflictInfoView::Unparsed(text),
        conflict_info(text) matches ConflictInfoView::Unparsed(kept) ==> conflict_info(kept)
            == conflict_info(text),
{
}

} // verus!
