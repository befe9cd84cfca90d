use mpris_bridge::span::TimeSpan;
use mpris_bridge::time::{micros_from_duration, time_from_duration};
use mpris_server::Time;

fn span(secs: u64, nanos: u32) -> TimeSpan {
    TimeSpan { secs, nanos }
}

#[test]
fn position_counts_whole_microseconds() {
    assert_eq!(micros_from_duration(span(0, 0)), 0);
    assert_eq!(micros_from_duration(span(0, 999)), 0);
    assert_eq!(micros_from_duration(span(0, 1000)), 1);
    assert_eq!(micros_from_duration(span(61, 500_000_999)), 61_500_000);
    assert_eq!(time_from_duration(span(61, 500_000_999)), Time::from_micros(61_500_000));
}

#[test]
fn position_is_held_at_the_largest_time() {
    assert_eq!(micros_from_duration(span(9_223_372_036_854, 775_807_000)), i64::MAX);
    assert_eq!(micros_from_duration(span(9_223_372_036_854, 775_806_999)), i64::MAX - 1);
    assert_eq!(micros_from_duration(span(9_223_372_036_855, 0)), i64::MAX);
    assert_eq!(micros_from_duration(span(u64::MAX, 999_999_999)), i64::MAX);
    assert_eq!(time_from_duration(span(u64::MAX, 999_999_999)), Time::MAX);
}

#[test]
fn microseconds_agree_with_the_standard_duration() {
    for (secs, nanos) in [(0, 1), (3, 1_500), (7, 999_999_999), (u64::MAX, 999_999_999)] {
        let expected = std::time::Duration::new(secs, nanos).as_micros();
        assert_eq!(span(secs, nanos).as_micros(), expected);
    }
}

#[test]
fn difference_stops_at_zero() {
    assert_eq!(span(5, 0).saturating_since(span(3, 1)), span(1, 999_999_999));
    assert_eq!(span(5, 7).saturating_since(span(5, 7)), span(0, 0));
    assert_eq!(span(5, 6).saturating_since(span(5, 7)), span(0, 0));
    assert_eq!(span(4, 9).saturating_since(span(5, 7)), span(0, 0));
    assert_eq!(span(5, 9).saturating_since(span(4, 7)), span(1, 2));
}

#[test]
fn later_position_has_no_smaller_time() {
    let spans = [span(0, 0), span(0, 1500), span(2, 0), span(9_223_372_036_855, 0), span(u64::MAX, 0)];
    for pair in spans.windows(2) {
        assert!(micros_from_duration(pair[0]) <= micros_from_duration(pair[1]));
    }
}
