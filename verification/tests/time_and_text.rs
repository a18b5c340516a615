use community_hub::clock::{now_utc, whole_seconds, Timestamp, MAX_INSTANT_NANOS, MIN_UNIX_SECONDS};
use community_hub::text::push_int_decimal;
use community_hub::time_ago::format_time_difference_at;

fn at(seconds: i64, nanos: u32) -> Timestamp {
    Timestamp::from_unix(seconds, nanos).unwrap()
}

fn decimal(n: i128) -> String {
    let mut s = String::new();
    push_int_decimal(&mut s, n);
    s
}

#[test]
fn decimal_rendering_matches_display() {
    assert_eq!(decimal(0), "0");
    assert_eq!(decimal(42), "42");
    assert_eq!(decimal(-7), "-7");
    assert_eq!(decimal(i128::MIN), i128::MIN.to_string());
    assert_eq!(decimal(i128::MAX), i128::MAX.to_string());
}

#[test]
fn timestamp_rejects_out_of_range_nanoseconds() {
    assert!(Timestamp::from_unix(0, 1_000_000_000).is_none());
    let t = at(-5, 999_999_999);
    assert_eq!(t.unix_seconds(), -5);
    assert_eq!(t.nanosecond(), 999_999_999);
    assert_eq!(t.as_nanos(), -4_000_000_001);
}

#[test]
fn saturating_add_stops_at_the_latest_instant() {
    let t = at(100, 5);
    assert_eq!(t.saturating_add_seconds(30).as_nanos(), 130_000_000_005);
    let late = at(253_402_300_790, 0);
    assert_eq!(late.saturating_add_seconds(30).as_nanos(), MAX_INSTANT_NANOS);
    let before_epoch = at(-10, 500);
    assert_eq!(before_epoch.saturating_add_seconds(3).as_nanos(), -6_999_999_500);
}

#[test]
fn whole_seconds_round_towards_zero() {
    assert_eq!(whole_seconds(1_500_000_000), 1);
    assert_eq!(whole_seconds(-1_500_000_000), -1);
    assert_eq!(whole_seconds(-999_999_999), 0);
    assert_eq!(at(10, 0).nanos_since(&at(12, 500_000_000)), -2_500_000_000);
}

#[test]
fn time_difference_buckets() {
    let date = at(1_000_000, 0);
    let after = |s: i64, ns: u32| format_time_difference_at(at(1_000_000 + s, ns), date);
    assert_eq!(after(0, 0), "0 second/s ago");
    assert_eq!(after(60, 0), "60 second/s ago");
    assert_eq!(after(60, 1), "1 minute/s ago");
    assert_eq!(after(3_600, 0), "60 minute/s ago");
    assert_eq!(after(7_200, 0), "2 hour/s ago");
    assert_eq!(after(86_400, 0), "24 hour/s ago");
    assert_eq!(after(90_000, 0), "1 day/s ago");
    assert_eq!(after(7 * 86_400, 0), "7 day/s ago");
    assert_eq!(after(8 * 86_400, 0), "1 week/s ago");
    assert_eq!(after(28 * 86_400, 0), "4 week/s ago");
    assert_eq!(after(29 * 86_400, 0), "More than a month ago");
    assert_eq!(after(-5, 0), "-5 second/s ago");
}

#[test]
fn clock_reads_a_representable_instant() {
    let before = std::time::SystemTime::now().duration_since(std::time::UNIX_EPOCH).unwrap().as_secs() as i64;
    let now = now_utc();
    let after = std::time::SystemTime::now().duration_since(std::time::UNIX_EPOCH).unwrap().as_secs() as i64;
    assert!(before <= now.unix_seconds() && now.unix_seconds() <= after);
    assert!(now.nanosecond() < 1_000_000_000);
    assert!((MIN_UNIX_SECONDS as i128) * 1_000_000_000 <= now.as_nanos() && now.as_nanos() <= MAX_INSTANT_NANOS);
}
