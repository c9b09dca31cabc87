use std::collections::VecDeque;

use reservation::pager::{Id, PageInfo, Paginator};
use reservation::{
    get_timespan, validate_range, ReservationFilterBuilder, ReservationQueryBuilder, Timestamp,
    ToSql,
};

struct TestId(i64);

impl Id for TestId {
    fn id(&self) -> i64 {
        self.0
    }
}

fn generate_test_ids(start: i64, end: i64) -> VecDeque<TestId> {
    (start..=end).map(TestId).collect()
}

fn ts(text: &str) -> Timestamp {
    let t: prost_types::Timestamp = text.parse().unwrap();
    Timestamp {
        seconds: t.seconds,
        nanos: t.nanos,
    }
}

#[test]
fn validate_range_should_work_valid_range() {
    let start = Timestamp {
        seconds: 1,
        nanos: 0,
    };
    let end = Timestamp {
        seconds: 2,
        nanos: 0,
    };
    assert!(validate_range(Some(&start), Some(&end)).is_ok());
}

#[test]
fn validate_range_should_reject_invalid_range() {
    let start = Timestamp {
        seconds: 3,
        nanos: 0,
    };
    let end = Timestamp {
        seconds: 2,
        nanos: 0,
    };
    assert!(validate_range(Some(&start), Some(&end)).is_err());
}

#[test]
fn get_timespan_should_work_for_valid_start_end() {
    let start = Timestamp {
        seconds: 1,
        nanos: 0,
    };
    let end = Timestamp {
        seconds: 2,
        nanos: 0,
    };
    let range = get_timespan(Some(&start), Some(&end));
    assert_eq!(range.start, start);
    assert_eq!(range.end, end);
}

#[test]
fn paginator_should_work() {
    // first page
    let page = PageInfo {
        cursor: None,
        page_size: 10,
        desc: false,
    };

    // assume got 11 items from db
    let mut items: VecDeque<TestId> = generate_test_ids(1, 11);
    let pager = page.get_pager(&mut items);
    assert_eq!(pager.next, Some(10));
    assert!(pager.next.is_some());

    let prev_page = page.prev_page(&pager);
    assert!(prev_page.is_none());

    // second page
    let page = page.next_page(&pager).unwrap();
    let mut items = generate_test_ids(10, 21);
    let pager = page.get_pager(&mut items);
    assert_eq!(pager.prev, Some(11));
    assert_eq!(pager.next, Some(20));

    let prev_page = page.prev_page(&pager);
    assert_eq!(prev_page.unwrap().cursor, Some(11));

    // third page
    let page = page.next_page(&pager).unwrap();
    let mut items = generate_test_ids(20, 26);
    let pager = page.get_pager(&mut items);
    assert_eq!(pager.prev, Some(21));
    assert!(pager.next.is_none());

    let prev_page = page.prev_page(&pager);
    assert_eq!(prev_page.unwrap().cursor, Some(21));
}

#[test]
fn filter_generate_sql_should_correct() {
    let filter = ReservationFilterBuilder::default()
        .user_id("james id")
        .build()
        .unwrap();
    let sql = filter.to_sql();

    assert_eq!(
        sql,
        "SELECT * FROM rsvp.reservations WHERE status = 'pending'::rsvp.reservation_status AND id >= 0 AND user_id = 'james id' ORDER BY id ASC LIMIT 11"
    );

    let filter = ReservationFilterBuilder::default()
        .user_id("james id")
        .resource_id("test")
        .build()
        .unwrap();
    let sql = filter.to_sql();
    assert_eq!(
        sql,
        "SELECT * FROM rsvp.reservations WHERE status = 'pending'::rsvp.reservation_status AND id >= 0 AND user_id = 'james id' AND resource_id = 'test' ORDER BY id ASC LIMIT 11"
    );

    let filter = ReservationFilterBuilder::default()
        .desc(true)
        .build()
        .unwrap();

    let sql = filter.to_sql();
    assert_eq!(
        sql,
        "SELECT * FROM rsvp.reservations WHERE status = 'pending'::rsvp.reservation_status AND id <= 9223372036854775807 AND TRUE ORDER BY id DESC LIMIT 11"
    );

    let filter = ReservationFilterBuilder::default()
        .user_id("james id")
        .cursor(100)
        .build()
        .unwrap();

    let sql = filter.to_sql();
    assert_eq!(
        sql,
        "SELECT * FROM rsvp.reservations WHERE status = 'pending'::rsvp.reservation_status AND id >= 100 AND user_id = 'james id' ORDER BY id ASC LIMIT 12"
    );

    let filter = ReservationFilterBuilder::default()
        .user_id("james id")
        .cursor(10)
        .desc(true)
        .build()
        .unwrap();

    let sql = filter.to_sql();
    assert_eq!(
        sql,
        "SELECT * FROM rsvp.reservations WHERE status = 'pending'::rsvp.reservation_status AND id <= 10 AND user_id = 'james id' ORDER BY id DESC LIMIT 12"
    );
}

#[test]
fn filter_with_pager_should_generate_correct_sql() {
    let filter = ReservationFilterBuilder::default()
        .resource_id("test")
        .build()
        .unwrap();
    let mut items = generate_test_ids(1, 11);
    let pager = filter.get_pager(&mut items);
    assert_eq!(pager.prev, None);
    assert_eq!(pager.next, Some(10));

    let filter = filter.next_page(&pager).unwrap();
    let sql = filter.to_sql();
    assert_eq!(
        sql,
        "SELECT * FROM rsvp.reservations WHERE status = 'pending'::rsvp.reservation_status AND id >= 10 AND resource_id = 'test' ORDER BY id ASC LIMIT 12"
    );
    let mut items = generate_test_ids(10, 20);
    let pager = filter.get_pager(&mut items);
    assert_eq!(pager.prev, Some(11));
    assert_eq!(pager.next, None);
}

#[test]
fn query_should_generate_valid_sql() {
    let query = ReservationQueryBuilder::default()
        .user_id("james id")
        .build()
        .unwrap();

    let sql = query.to_sql();

    assert_eq!(sql, "SELECT * FROM rsvp.reservations WHERE tstzrange('-infinity', 'infinity') @> timespan AND status = 'pending'::rsvp.reservation_status AND user_id = 'james id' ORDER BY lower(timespan) ASC");

    let query = ReservationQueryBuilder::default()
        .resource_id("test")
        .start(ts("2021-11-01T15:00:00-0700"))
        .build()
        .unwrap();

    let sql = query.to_sql();
    assert_eq!(sql, "SELECT * FROM rsvp.reservations WHERE tstzrange('2021-11-01T22:00:00+00:00', 'infinity') @> timespan AND status = 'pending'::rsvp.reservation_status AND resource_id = 'test' ORDER BY lower(timespan) ASC");

    let query = ReservationQueryBuilder::default()
        .end(ts("2021-11-01T16:00:00-0700"))
        .build()
        .unwrap();

    let sql = query.to_sql();
    assert_eq!(sql, "SELECT * FROM rsvp.reservations WHERE tstzrange('-infinity', '2021-11-01T23:00:00+00:00') @> timespan AND status = 'pending'::rsvp.reservation_status AND TRUE ORDER BY lower(timespan) ASC");
}
