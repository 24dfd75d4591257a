use blog_store::clock::{now, timestamp, MILLENNIUM};

#[test]
fn millennium_is_the_start_of_2000() {
    assert_eq!(MILLENNIUM, 946_684_800_000_000);
    let start = chrono::DateTime::parse_from_rfc3339("2000-01-01T00:00:00Z").unwrap();
    assert_eq!(start.timestamp_micros(), MILLENNIUM);
}

#[test]
fn timestamp_counts_from_the_millennium() {
    assert_eq!(timestamp(946_684_800_000_000), 0);
    assert_eq!(timestamp(946_684_800_000_001), 1);
    assert_eq!(timestamp(0), -946_684_800_000_000);
    assert_eq!(timestamp(1_000_000_000_000_555), 53_315_200_000_555);
    assert_eq!(timestamp(i64::MAX), i64::MAX - 946_684_800_000_000);
    assert_eq!(timestamp(i64::MIN + 946_684_800_000_000), i64::MIN);
}

#[test]
fn now_is_the_time_of_the_call() {
    let before = chrono::Utc::now().timestamp_micros() - MILLENNIUM;
    let read = now();
    let after = chrono::Utc::now().timestamp_micros() - MILLENNIUM;
    assert!(before <= read && read <= after);
    // well after 2020-01-01T00:00:00Z
    assert!(read > 631_152_000_000_000);
}
