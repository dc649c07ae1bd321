use sqlxmq::decimal::{parse_u32, to_notation};
use sqlxmq::duration::{
    can_double, double, from_micros, from_millis, from_secs, half, minus, plus, shorter,
};
use sqlxmq::poll::{to_duration, Interval};
use sqlxmq::stress::{sort, start_job, summarize};
use std::time::Duration;

#[test]
fn durations_agree_with_their_units() {
    assert_eq!(from_secs(7), Duration::from_secs(7));
    assert_eq!(from_millis(1234), Duration::from_millis(1234));
    assert_eq!(from_micros(1_234_567), Duration::from_micros(1_234_567));
    assert_eq!(from_micros(u64::MAX), Duration::from_micros(u64::MAX));
    assert_eq!(from_millis(u64::MAX), Duration::from_millis(u64::MAX));
}

#[test]
fn durations_are_added_halved_and_doubled() {
    let a = Duration::new(1, 600_000_000);
    let b = Duration::new(2, 500_000_000);
    assert_eq!(plus(a, b), Duration::new(4, 100_000_000));
    assert_eq!(plus(a, a), a * 2);
    assert_eq!(minus(b, a), Duration::new(0, 900_000_000));
    assert_eq!(minus(a, a), Duration::from_secs(0));
    assert_eq!(minus(plus(a, b), a), b);
    assert_eq!(half(Duration::new(3, 1)), Duration::new(3, 1) / 2);
    assert_eq!(half(Duration::new(4, 7)), Duration::new(2, 3));
    assert_eq!(double(b), Duration::from_secs(5));
    assert!(can_double(Duration::new(u64::MAX / 2, 999_999_999)));
    assert!(!can_double(Duration::new(u64::MAX / 2 + 1, 0)));
    assert!(can_double(Duration::new(u64::MAX / 2, 499_999_999)));
    assert!(shorter(a, b));
    assert!(!shorter(a, a));
    assert!(shorter(Duration::new(1, 5), Duration::new(1, 6)));
}

#[test]
fn an_interval_counts_thirty_days_a_month() {
    let interval = Interval { months: 2, days: 3, microseconds: 4_000_005 };
    assert_eq!(
        to_duration(interval),
        Duration::from_micros(4_000_005) + Duration::from_secs(63 * 24 * 60 * 60)
    );
    assert_eq!(
        to_duration(Interval { months: 0, days: 0, microseconds: 200_000 }),
        Duration::from_millis(200)
    );
}

#[test]
fn the_longest_interval_is_a_duration() {
    let interval = Interval { months: i32::MAX, days: i32::MAX, microseconds: i64::MAX };
    let days = i32::MAX as u64 * 31;
    assert_eq!(
        to_duration(interval),
        Duration::from_micros(i64::MAX as u64) + Duration::from_secs(days * 86_400)
    );
}

#[test]
fn a_negative_interval_is_empty() {
    for interval in [
        Interval { months: -1, days: 3, microseconds: 4 },
        Interval { months: 1, days: -3, microseconds: 4 },
        Interval { months: 1, days: 3, microseconds: -4 },
    ] {
        assert_eq!(to_duration(interval), Duration::default());
    }
}

#[test]
fn numbers_are_read_in_decimal() {
    assert_eq!(parse_u32("0"), Some(0));
    assert_eq!(parse_u32("007"), Some(7));
    assert_eq!(parse_u32("4294967295"), Some(4294967295));
    assert_eq!(parse_u32("4294967296"), None);
    assert_eq!(parse_u32("99999999999999999999"), None);
    for text in ["", "+", "-", "-5", "+5", "1 ", " 1", "1_0", "0x1", "12", "++1", "\u{661}"] {
        assert_eq!(parse_u32(text), text.parse::<u32>().ok(), "{}", text);
    }
}

#[test]
fn numbers_are_written_in_decimal() {
    for n in [0usize, 9, 10, 305, 4294967295] {
        assert_eq!(to_notation(n), n.to_string());
        assert_eq!(parse_u32(&to_notation(n)), Some(n as u32));
    }
}

#[test]
fn stress_jobs_are_spread_over_channels() {
    assert_eq!(start_job(0), ("foo", "0".to_string()));
    assert_eq!(start_job(1), ("bar", "0".to_string()));
    assert_eq!(start_job(33), ("foo", "1".to_string()));
    assert_eq!(start_job(9999), ("foo", "312".to_string()));
}

#[test]
fn durations_are_summed_up() {
    let mut durations: Vec<Duration> = Vec::new();
    for i in 0..40u64 {
        durations.push(Duration::from_millis((i * 7) % 40));
    }
    let sorted = sort(&durations);
    let mut expected = durations.clone();
    expected.sort();
    assert_eq!(sorted, expected);
    let summary = summarize(&durations);
    assert_eq!(summary.min, Duration::from_millis(0));
    assert_eq!(summary.max, Duration::from_millis(39));
    assert_eq!(summary.median, Duration::from_millis(20));
    assert_eq!(summary.pct, Duration::from_millis(38));
    let single = summarize(&vec![Duration::from_secs(3)]);
    assert_eq!(single.min, single.max);
    assert_eq!(single.median, single.pct);
}
