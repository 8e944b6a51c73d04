use reservation::conflict::{CLAUSE_PATTERN, RESOURCE_COLUMN, TIMESPAN_COLUMN};
use reservation::{
    parse_datetime, FieldMap, ParsedInfo, ReservationConflict, ReservationConflictInfo,
    ReservationWindow, Timestamp,
};

const ERR_MSG: &str = "Key (resource_id, timespan)=(ocean-view-room-713, [\"2022-12-26 22:00:00+00\",\"2022-12-30 19:00:00+00\")) conflicts with existing key (resource_id, timespan)=(ocean-view-room-713, [\"2022-12-25 22:00:00+00\",\"2022-12-28 19:00:00+00\")).";

fn rfc3339(t: &Timestamp) -> String {
    t.to_rfc3339().unwrap()
}

#[test]
fn parse_datetime_should_work() {
    let dt = parse_datetime("2022-12-26 22:00:00+00").unwrap();
    assert_eq!(dt.to_rfc3339().unwrap(), "2022-12-26T22:00:00+00:00");
}

#[test]
fn parsed_info_should_work() {
    let info: ParsedInfo = ParsedInfo::from_str(ERR_MSG).unwrap();
    assert_eq!(info.new.get("resource_id").unwrap(), "ocean-view-room-713");
    assert_eq!(
        info.new.get("timespan").unwrap(),
        "\"2022-12-26 22:00:00+00\",\"2022-12-30 19:00:00+00\""
    );
    assert_eq!(info.old.get("resource_id").unwrap(), "ocean-view-room-713");
    assert_eq!(
        info.old.get("timespan").unwrap(),
        "\"2022-12-25 22:00:00+00\",\"2022-12-28 19:00:00+00\""
    );
}

#[test]
fn hash_map_to_reservation_window_should_work() {
    let mut map = FieldMap::new();
    map.insert("resource_id".to_string(), "ocean-view-room-713".to_string());
    map.insert(
        "timespan".to_string(),
        "\"2022-12-26 22:00:00+00\",\"2022-12-30 19:00:00+00\"".to_string(),
    );
    let window: ReservationWindow = ReservationWindow::try_from(map).unwrap();
    assert_eq!(window.rid, "ocean-view-room-713");
    assert_eq!(rfc3339(&window.start), "2022-12-26T22:00:00+00:00");
    assert_eq!(rfc3339(&window.end), "2022-12-30T19:00:00+00:00");
}

#[test]
fn conflict_error_message_should_parse() {
    let info: ReservationConflictInfo = ReservationConflictInfo::from_str(ERR_MSG).unwrap();
    match info {
        ReservationConflictInfo::Parsed(conflict) => {
            assert_eq!(conflict.new.rid, "ocean-view-room-713");
            assert_eq!(rfc3339(&conflict.new.start), "2022-12-26T22:00:00+00:00");
            assert_eq!(rfc3339(&conflict.new.end), "2022-12-30T19:00:00+00:00");
            assert_eq!(conflict.old.rid, "ocean-view-room-713");
            assert_eq!(rfc3339(&conflict.old.start), "2022-12-25T22:00:00+00:00");
            assert_eq!(rfc3339(&conflict.old.end), "2022-12-28T19:00:00+00:00");
        }
        ReservationConflictInfo::Unparsed(_) => panic!("should be parsed"),
    }
}

#[test]
fn parse_datetime_gives_seconds_since_the_epoch() {
    assert_eq!(
        parse_datetime("1970-01-01 00:00:00+00"),
        Ok(Timestamp { seconds: 0, nanos: 0 })
    );
    assert_eq!(
        parse_datetime("2022-12-26 22:00:00+00"),
        Ok(Timestamp { seconds: 1672092000, nanos: 0 })
    );
    assert_eq!(
        parse_datetime("2022-12-26 15:00:00-07"),
        Ok(Timestamp { seconds: 1672092000, nanos: 0 })
    );
    assert_eq!(
        parse_datetime("2022-12-26 15:00:00-07:00"),
        Ok(Timestamp { seconds: 1672092000, nanos: 0 })
    );
}

#[test]
fn parse_datetime_refuses_other_text() {
    assert_eq!(parse_datetime(""), Err(()));
    assert_eq!(parse_datetime("2022-12-26 22:00:00"), Err(()));
    assert_eq!(parse_datetime("2022-12-26T22:00:00+00:00"), Err(()));
    assert_eq!(parse_datetime("2022-13-26 22:00:00+00"), Err(()));
    assert_eq!(parse_datetime("tomorrow"), Err(()));
}

#[test]
fn rfc3339_of_an_instant() {
    assert_eq!(
        Timestamp { seconds: 0, nanos: 0 }.to_rfc3339().unwrap(),
        "1970-01-01T00:00:00+00:00"
    );
    assert_eq!(
        Timestamp { seconds: 1672092000, nanos: 500_000_000 }.to_rfc3339().unwrap(),
        "2022-12-26T22:00:00.500+00:00"
    );
    assert_eq!(
        Timestamp { seconds: -1, nanos: 0 }.to_rfc3339().unwrap(),
        "1969-12-31T23:59:59+00:00"
    );
}

#[test]
fn rfc3339_needs_an_instant_of_the_calendar() {
    assert_eq!(Timestamp { seconds: 0, nanos: -1 }.to_rfc3339(), None);
    assert_eq!(Timestamp { seconds: 0, nanos: 1_000_000_000 }.to_rfc3339(), None);
    assert_eq!(Timestamp { seconds: i64::MAX, nanos: 0 }.to_rfc3339(), None);
    assert_eq!(Timestamp { seconds: i64::MIN, nanos: 0 }.to_rfc3339(), None);
}

#[test]
fn timestamp_from_parsed_parts() {
    assert_eq!(
        Timestamp::from_parsed(Some((5, 7))),
        Ok(Timestamp { seconds: 5, nanos: 7 })
    );
    assert_eq!(
        Timestamp::from_parsed(Some((5, 1_999_999_999))),
        Ok(Timestamp { seconds: 5, nanos: 1_999_999_999 })
    );
    assert_eq!(Timestamp::from_parsed(Some((5, u32::MAX))), Err(()));
    assert_eq!(Timestamp::from_parsed(None), Err(()));
}

#[test]
fn field_map_keeps_the_later_value() {
    let mut map = FieldMap::new();
    assert!(map.get("a").is_none());
    map.insert("a".to_string(), "1".to_string());
    map.insert("b".to_string(), "2".to_string());
    map.insert("a".to_string(), "3".to_string());
    assert_eq!(map.get("a").unwrap(), "3");
    assert_eq!(map.get("b").unwrap(), "2");
    assert!(map.get("c").is_none());
}

fn clause(k1: &str, k2: &str, v1: &str, v2: &str) -> Vec<Option<String>> {
    vec![
        Some(format!("({}, {})=({}, [{}", k1, k2, v1, v2)),
        Some(k1.to_string()),
        Some(k2.to_string()),
        Some(v1.to_string()),
        Some(v2.to_string()),
    ]
}

#[test]
fn parsed_info_from_captures_needs_two_whole_clauses() {
    let one = clause("resource_id", "timespan", "r", "a,b");
    let two = clause("resource_id", "timespan", "s", "c,d");

    let info = ParsedInfo::from_captures(&vec![one.clone(), two.clone()]).unwrap();
    assert_eq!(info.new.get("resource_id").unwrap(), "r");
    assert_eq!(info.new.get("timespan").unwrap(), "a,b");
    assert_eq!(info.old.get("resource_id").unwrap(), "s");
    assert_eq!(info.old.get("timespan").unwrap(), "c,d");

    assert!(ParsedInfo::from_captures(&vec![]).is_err());
    assert!(ParsedInfo::from_captures(&vec![one.clone()]).is_err());
    assert!(ParsedInfo::from_captures(&vec![one.clone(), two.clone(), one.clone()]).is_err());

    let mut short = one.clone();
    short.pop();
    assert!(ParsedInfo::from_captures(&vec![short, two.clone()]).is_err());

    let mut hollow = two.clone();
    hollow[3] = None;
    assert!(ParsedInfo::from_captures(&vec![one, hollow]).is_err());
}

#[test]
fn parsed_info_counts_the_clauses() {
    assert!(ParsedInfo::from_str("").is_err());
    assert!(ParsedInfo::from_str("no clause here").is_err());
    assert!(ParsedInfo::from_str("(a, b)=(c, [d)").is_err());
    assert!(ParsedInfo::from_str("(a, b)=(c, [d) (e, f)=(g, [h) (i, j)=(k, [l)").is_err());

    let info = ParsedInfo::from_str("(a,b)=(c,[d) and (e , f)=(g ,  [h i]").unwrap();
    assert_eq!(info.new.get("a").unwrap(), "c");
    assert_eq!(info.new.get("b").unwrap(), "d");
    assert_eq!(info.old.get("e").unwrap(), "g");
    assert_eq!(info.old.get("f").unwrap(), "h i");
}

#[test]
fn window_needs_both_columns_and_two_timestamps() {
    let window = |resource: Option<&str>, span: Option<&str>| {
        let mut map = FieldMap::new();
        if let Some(r) = resource {
            map.insert(RESOURCE_COLUMN.to_string(), r.to_string());
        }
        if let Some(s) = span {
            map.insert(TIMESPAN_COLUMN.to_string(), s.to_string());
        }
        ReservationWindow::try_from(map)
    };
    let good = "\"2022-12-26 22:00:00+00\",\"2022-12-30 19:00:00+00\"";
    assert_eq!(
        window(Some("room"), Some(good)),
        Ok(ReservationWindow {
            rid: "room".to_string(),
            start: Timestamp { seconds: 1672092000, nanos: 0 },
            end: Timestamp { seconds: 1672426800, nanos: 0 },
        })
    );
    assert_eq!(
        window(Some("room"), Some("2022-12-26 22:00:00+00,2022-12-30 19:00:00+00")),
        window(Some("room"), Some(good))
    );
    assert_eq!(window(None, Some(good)), Err(()));
    assert_eq!(window(Some("room"), None), Err(()));
    assert_eq!(window(Some("room"), Some("\"2022-12-26 22:00:00+00\"")), Err(()));
    assert_eq!(window(Some("room"), Some("\"2022-12-26 22:00:00+00\",")), Err(()));
    assert_eq!(window(Some("room"), Some(",\"2022-12-26 22:00:00+00\"")), Err(()));
    assert_eq!(
        window(
            Some("room"),
            Some("\"2022-12-26 22:00:00+00\",\"2022-12-30 19:00:00+00\",\"2022-12-31 19:00:00+00\"")
        ),
        Err(())
    );
}

#[test]
fn conflict_keeps_the_order_of_the_report() {
    let conflict = ReservationConflict::from_str(ERR_MSG).unwrap();
    assert_eq!(
        conflict,
        ReservationConflict {
            new: ReservationWindow {
                rid: "ocean-view-room-713".to_string(),
                start: Timestamp { seconds: 1672092000, nanos: 0 },
                end: Timestamp { seconds: 1672426800, nanos: 0 },
            },
            old: ReservationWindow {
                rid: "ocean-view-room-713".to_string(),
                start: Timestamp { seconds: 1672005600, nanos: 0 },
                end: Timestamp { seconds: 1672254000, nanos: 0 },
            },
        }
    );
}

#[test]
fn unreadable_report_is_kept_as_it_is() {
    for text in [
        "",
        "duplicate key value violates unique constraint",
        "Key (resource_id, timespan)=(room, [\"2022-12-26 22:00:00+00\",\"2022-12-30 19:00:00+00\")).",
        "Key (resource_id, timespan)=(room, [\"yesterday\",\"2022-12-30 19:00:00+00\")) conflicts with existing key (resource_id, timespan)=(room, [\"2022-12-25 22:00:00+00\",\"2022-12-28 19:00:00+00\")).",
        "Key (resource, span)=(room, [\"2022-12-26 22:00:00+00\",\"2022-12-30 19:00:00+00\")) conflicts with existing key (resource, span)=(room, [\"2022-12-25 22:00:00+00\",\"2022-12-28 19:00:00+00\")).",
    ] {
        let info = ReservationConflictInfo::parse(text);
        assert_eq!(info, ReservationConflictInfo::Unparsed(text.to_string()));
        match info {
            ReservationConflictInfo::Unparsed(kept) => {
                assert_eq!(
                    ReservationConflictInfo::parse(&kept),
                    ReservationConflictInfo::Unparsed(kept.clone())
                );
            }
            ReservationConflictInfo::Parsed(_) => panic!("should not be parsed"),
        }
    }
}

#[test]
fn reading_a_report_twice_gives_the_same() {
    assert_eq!(
        ReservationConflictInfo::parse(ERR_MSG),
        ReservationConflictInfo::parse(ERR_MSG)
    );
    assert_eq!(
        ReservationConflictInfo::from_str(ERR_MSG).unwrap(),
        ReservationConflictInfo::parse(ERR_MSG)
    );
}

#[test]
fn clause_pattern_is_a_pattern() {
    assert!(regex::Regex::new(CLAUSE_PATTERN).is_ok());
}
