use reservation::query::{get_time_string, query_sql, QUERY_ASCENDING, QUERY_DESCENDING};
use reservation::{
    Error, Normalizer, QueryPredicate, ReservationQuery, ReservationQueryBuilder,
    ReservationStatus, Timestamp, ToSql, Validator,
};

fn timestamp(text: &str) -> Timestamp {
    let parsed = text.parse::<prost_types::Timestamp>().unwrap();
    Timestamp { seconds: parsed.seconds, nanos: parsed.nanos }
}

fn at(seconds: i64) -> Option<Timestamp> {
    Some(Timestamp { seconds, nanos: 0 })
}

fn plain(status: i32, start: Option<Timestamp>, end: Option<Timestamp>) -> ReservationQuery {
    ReservationQuery {
        resource_id: String::new(),
        user_id: String::new(),
        status,
        start,
        end,
        desc: false,
    }
}

#[test]
fn query_should_generate_valid_sql() {
    let query = ReservationQueryBuilder::default()
        .user_id("tyr")
        .build()
        .unwrap();

    let sql = query.to_sql();

    assert_eq!(sql, "SELECT * FROM rsvp.reservations WHERE tstzrange('-infinity', 'infinity') @> timespan AND status = 'pending'::rsvp.reservation_status AND user_id = 'tyr' ORDER BY lower(timespan) ASC");

    let query = ReservationQueryBuilder::default()
        .resource_id("test")
        .start(timestamp("2021-11-01T15:00:00-0700"))
        .build()
        .unwrap();

    let sql = query.to_sql();
    assert_eq!(sql, "SELECT * FROM rsvp.reservations WHERE tstzrange('2021-11-01T22:00:00+00:00', 'infinity') @> timespan AND status = 'pending'::rsvp.reservation_status AND resource_id = 'test' ORDER BY lower(timespan) ASC");

    let query = ReservationQueryBuilder::default()
        .end(timestamp("2021-11-01T16:00:00-0700"))
        .build()
        .unwrap();

    let sql = query.to_sql();
    assert_eq!(sql, "SELECT * FROM rsvp.reservations WHERE tstzrange('-infinity', '2021-11-01T23:00:00+00:00') @> timespan AND status = 'pending'::rsvp.reservation_status AND TRUE ORDER BY lower(timespan) ASC");
}

#[test]
fn query_sql_from_its_parts() {
    assert_eq!(
        query_sql("a", "b", ReservationStatus::Blocked, "", "", true),
        "SELECT * FROM rsvp.reservations WHERE tstzrange('a', 'b') @> timespan AND status = 'blocked'::rsvp.reservation_status AND TRUE ORDER BY lower(timespan) DESC"
    );
    assert_eq!(
        query_sql("-infinity", "infinity", ReservationStatus::Confirmed, "u'1", "r", false),
        "SELECT * FROM rsvp.reservations WHERE tstzrange('-infinity', 'infinity') @> timespan AND status = 'confirmed'::rsvp.reservation_status AND user_id = 'u''1' AND resource_id = 'r' ORDER BY lower(timespan) ASC"
    );
}

#[test]
fn query_writes_a_missing_end_as_infinity() {
    assert_eq!(get_time_string(None, true).unwrap(), "-infinity");
    assert_eq!(get_time_string(None, false).unwrap(), "infinity");
    let t = Timestamp { seconds: 1635804000, nanos: 0 };
    assert_eq!(get_time_string(Some(&t), true).unwrap(), "2021-11-01T22:00:00+00:00");
    assert_eq!(get_time_string(Some(&t), false).unwrap(), "2021-11-01T22:00:00+00:00");
    let far = Timestamp { seconds: i64::MAX, nanos: 0 };
    assert_eq!(get_time_string(Some(&far), true), None);
}

#[test]
fn query_checked_sql_refuses_what_cannot_be_written() {
    let query = plain(1, at(1635804000), None);
    assert_eq!(query.checked_sql(), Some(query.to_sql()));
    assert_eq!(
        query.checked_sql().unwrap(),
        "SELECT * FROM rsvp.reservations WHERE tstzrange('2021-11-01T22:00:00+00:00', 'infinity') @> timespan AND status = 'pending'::rsvp.reservation_status AND TRUE ORDER BY lower(timespan) ASC"
    );
    assert_eq!(plain(7, None, None).checked_sql(), None);
    assert_eq!(plain(1, at(i64::MAX), None).checked_sql(), None);
    assert_eq!(plain(1, None, at(i64::MIN)).checked_sql(), None);
    assert_eq!(
        plain(1, Some(Timestamp { seconds: 0, nanos: -1 }), None).checked_sql(),
        None
    );
}

#[test]
fn query_status_must_be_one_of_the_four() {
    for status in [-1, 4, i32::MAX] {
        match plain(status, None, None).validate() {
            Err(Error::InvalidStatus(n)) => assert_eq!(n, status),
            other => panic!("status {} gave {:?}", status, other),
        }
    }
    for status in 0..=3 {
        assert!(plain(status, None, None).validate().is_ok());
    }
}

#[test]
fn query_window_must_start_before_it_ends() {
    assert!(plain(1, at(1), at(2)).validate().is_ok());
    assert!(plain(1, at(1), None).validate().is_ok());
    assert!(plain(1, None, at(1)).validate().is_ok());
    assert!(plain(1, None, None).validate().is_ok());
    assert_eq!(plain(1, at(2), at(1)).validate(), Err(Error::InvalidTime));
    assert_eq!(plain(1, at(2), at(2)).validate(), Err(Error::InvalidTime));
    let early = Some(Timestamp { seconds: 2, nanos: 1 });
    let late = Some(Timestamp { seconds: 2, nanos: 2 });
    assert!(plain(1, early, late).validate().is_ok());
    assert_eq!(plain(1, late, early).validate(), Err(Error::InvalidTime));
    match plain(9, at(2), at(1)).validate() {
        Err(Error::InvalidStatus(9)) => {}
        other => panic!("got {:?}", other),
    }
}

#[test]
fn query_normalize_turns_unknown_into_pending() {
    let mut query = plain(0, at(1), at(2));
    assert!(query.normalize().is_ok());
    assert_eq!(query, plain(1, at(1), at(2)));

    let mut query = plain(3, None, None);
    assert!(query.normalize().is_ok());
    assert_eq!(query, plain(3, None, None));

    let mut query = plain(0, at(2), at(1));
    assert_eq!(query.normalize(), Err(Error::InvalidTime));
    assert_eq!(query, plain(0, at(2), at(1)));
}

#[test]
fn query_builder_starts_from_the_defaults() {
    let query = ReservationQueryBuilder::default().build().unwrap();
    assert_eq!(query, plain(1, None, None));

    let query = ReservationQueryBuilder::default()
        .user_id("u")
        .resource_id("r")
        .status(3)
        .start(Timestamp { seconds: 1, nanos: 0 })
        .end(Timestamp { seconds: 2, nanos: 0 })
        .desc(true)
        .build()
        .unwrap();
    assert_eq!(
        query,
        ReservationQuery {
            resource_id: "r".to_string(),
            user_id: "u".to_string(),
            status: 3,
            start: at(1),
            end: at(2),
            desc: true,
        }
    );
    assert_eq!(query.get_status(), ReservationStatus::Blocked);

    assert_eq!(
        ReservationQueryBuilder::default()
            .start(Timestamp { seconds: 2, nanos: 0 })
            .end(Timestamp { seconds: 1, nanos: 0 })
            .build(),
        Err(Error::InvalidTime)
    );
}

#[test]
fn query_predicate_binds_every_value() {
    let query = ReservationQuery {
        resource_id: "r".to_string(),
        user_id: String::new(),
        status: 2,
        start: at(1),
        end: None,
        desc: false,
    };
    let predicate = query.predicate();
    assert_eq!(
        predicate,
        QueryPredicate {
            start: at(1),
            end: None,
            status: ReservationStatus::Confirmed,
            user_id: None,
            resource_id: Some("r".to_string()),
            desc: false,
        }
    );
    assert_eq!(predicate.statement(), QUERY_ASCENDING);

    let query = ReservationQuery { desc: true, ..query };
    assert_eq!(query.predicate().statement(), QUERY_DESCENDING);
}
