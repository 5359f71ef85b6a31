use quad_pipeline::clock::{perf_to_system, Elapsed, Timestamp};
use std::time::Duration;

fn span(from_ms: u64, to_ms: u64) -> Option<Elapsed> {
    perf_to_system(to_ms).duration_since(&perf_to_system(from_ms))
}

#[test]
fn reading_splits_into_seconds_and_nanoseconds() {
    let t: Timestamp = perf_to_system(1_234);
    assert_eq!(t.secs(), 1);
    assert_eq!(t.subsec_nanos(), 234_000_000);
}

#[test]
fn reading_of_zero_is_the_origin() {
    let t = perf_to_system(0);
    assert_eq!(t.secs(), 0);
    assert_eq!(t.subsec_nanos(), 0);
}

#[test]
fn reading_just_below_a_second_keeps_its_nanoseconds() {
    let t = perf_to_system(999);
    assert_eq!(t.secs(), 0);
    assert_eq!(t.subsec_nanos(), 999_000_000);
    let t = perf_to_system(1_000);
    assert_eq!(t.secs(), 1);
    assert_eq!(t.subsec_nanos(), 0);
}

#[test]
fn largest_reading_does_not_overflow() {
    let t = perf_to_system(u64::MAX);
    assert_eq!(t.secs(), 18_446_744_073_709_551);
    assert_eq!(t.subsec_nanos(), 615_000_000);
}

#[test]
fn reading_agrees_with_std_duration() {
    for ms in [0u64, 1, 16, 33, 999, 1_000, 1_001, 59_999, 86_400_123] {
        let t = perf_to_system(ms);
        assert_eq!(Duration::new(t.secs(), t.subsec_nanos()), Duration::from_millis(ms));
    }
}

#[test]
fn span_is_the_difference_of_the_readings() {
    let e = span(5_000, 5_016).unwrap();
    assert_eq!(e.secs(), 0);
    assert_eq!(e.subsec_nanos(), 16_000_000);
}

#[test]
fn span_borrows_a_second_when_the_nanoseconds_run_short() {
    // 2.100 s - 1.900 s = 0.200 s
    let e = span(1_900, 2_100).unwrap();
    assert_eq!(e.secs(), 0);
    assert_eq!(e.subsec_nanos(), 200_000_000);
    // 10.250 s - 3.750 s = 6.500 s
    let e = span(3_750, 10_250).unwrap();
    assert_eq!(e.secs(), 6);
    assert_eq!(e.subsec_nanos(), 500_000_000);
}

#[test]
fn span_between_equal_readings_is_empty() {
    let e = span(42_042, 42_042).unwrap();
    assert_eq!(e.secs(), 0);
    assert_eq!(e.subsec_nanos(), 0);
}

#[test]
fn span_to_an_earlier_reading_is_refused() {
    assert_eq!(span(5_016, 5_000), None);
    assert_eq!(span(2_000, 1_999), None);
    assert_eq!(span(1, 0), None);
}

#[test]
fn span_agrees_with_std_duration() {
    let readings = [0u64, 1, 999, 1_000, 1_900, 2_100, 5_000, 5_016, 5_033, 3_600_000];
    for &a in readings.iter() {
        for &b in readings.iter() {
            let expected = Duration::from_millis(b).checked_sub(Duration::from_millis(a));
            let got = span(a, b).map(|e| Duration::new(e.secs(), e.subsec_nanos()));
            assert_eq!(got, expected);
        }
    }
}

#[test]
fn spans_grow_with_the_reading() {
    let boot = 7_000u64;
    let mut last = Duration::ZERO;
    for now in [7_000u64, 7_016, 7_016, 7_033, 7_999, 8_000, 8_001, 60_000] {
        let e = span(boot, now).unwrap();
        let d = Duration::new(e.secs(), e.subsec_nanos());
        assert!(last <= d);
        last = d;
    }
}
