use core::cmp::Ordering;
use core::time::Duration;
use nthash::native_duration::UNITS_PER_MILLI;
use nthash::NativeDuration;

#[test]
fn test_duration_conversions() {
    let ms300 = Duration::from_millis(300);
    let native_duration = NativeDuration::from(ms300);
    assert_eq!(
        <NativeDuration as Into<Duration>>::into(native_duration),
        ms300
    );

    let native_100ms: NativeDuration = NativeDuration { quad_part: -(100 as i64) * 10000 };
    let ms100 = NativeDuration::from(Duration::from_millis(100));
    assert!(native_100ms == ms100);
}

#[test]
fn a_millisecond_is_ten_thousand_units() {
    assert_eq!(UNITS_PER_MILLI, 10000);
    assert_eq!(NativeDuration::from_millis(1).quad_part, -10000);
    assert_eq!(NativeDuration::from_millis(0).quad_part, 0);
    assert_eq!(NativeDuration::from_millis(300).quad_part, -3000000);
    assert_eq!(NativeDuration::from(Duration::from_secs(2)).quad_part, -20000000);
}

#[test]
fn from_duration_drops_what_is_below_a_millisecond() {
    let d = Duration::new(1, 999_999);
    assert_eq!(NativeDuration::from(d).quad_part, -10000000);
    assert_eq!(NativeDuration::from(d), NativeDuration::from_millis(1000));
}

#[test]
fn longest_span_that_fits() {
    let interval = NativeDuration::from_millis(922337203685477);
    assert_eq!(interval.quad_part, -9223372036854770000);
    assert_eq!(interval.as_millis(), 922337203685477);
}

#[test]
fn longer_spans_keep_the_low_64_bits() {
    assert_eq!(NativeDuration::from_millis(922337203685478).quad_part, 9223372036854771616);
    assert_eq!(NativeDuration::from_millis(1u128 << 64).quad_part, 0);
    assert_eq!(NativeDuration::from_millis((1u128 << 64) + 5).quad_part, -50000);
    let longest = Duration::new(u64::MAX, 999_999_999);
    assert_eq!(longest.as_millis(), 18446744073709551615999);
    assert_eq!(NativeDuration::from(longest).quad_part, 10000);
}

#[test]
fn as_millis_rounds_towards_zero() {
    assert_eq!(NativeDuration { quad_part: 0 }.as_millis(), 0);
    assert_eq!(NativeDuration { quad_part: -1 }.as_millis(), 0);
    assert_eq!(NativeDuration { quad_part: -9999 }.as_millis(), 0);
    assert_eq!(NativeDuration { quad_part: -10000 }.as_millis(), 1);
    assert_eq!(NativeDuration { quad_part: -3000000 }.as_millis(), 300);
    assert_eq!(NativeDuration { quad_part: i64::MIN + 1 }.as_millis(), 922337203685477);
}

#[test]
fn as_millis_of_a_count_above_zero() {
    assert_eq!(NativeDuration { quad_part: 1 }.as_millis(), 0);
    assert_eq!(NativeDuration { quad_part: 9999 }.as_millis(), 0);
    assert_eq!(NativeDuration { quad_part: 10000 }.as_millis(), 18446744073709551615);
    assert_eq!(NativeDuration { quad_part: i64::MAX }.as_millis(), 18445821736505866139);
}

#[test]
fn as_millis_of_the_least_count() {
    assert_eq!(NativeDuration { quad_part: i64::MIN }.as_millis(), 18445821736505866139);
}

#[test]
fn into_duration_of_a_count_above_zero() {
    let d: Duration = NativeDuration { quad_part: 10000 }.into();
    assert_eq!(d, Duration::from_millis(u64::MAX));
}

#[test]
fn intervals_are_equal_when_their_counts_are() {
    assert!(NativeDuration { quad_part: -5 } == NativeDuration { quad_part: -5 });
    assert!(NativeDuration { quad_part: -5 } != NativeDuration { quad_part: -6 });
}

#[test]
fn intervals_are_ordered_by_whole_milliseconds() {
    let short = NativeDuration::from_millis(100);
    let long = NativeDuration::from_millis(300);
    assert_eq!(short.partial_cmp(&long), Some(Ordering::Less));
    assert_eq!(long.partial_cmp(&short), Some(Ordering::Greater));
    assert_eq!(long.partial_cmp(&long), Some(Ordering::Equal));
    // within one millisecond of each other: equal in the order, not equal
    let a = NativeDuration { quad_part: -10001 };
    let b = NativeDuration { quad_part: -19999 };
    assert_eq!(a.partial_cmp(&b), Some(Ordering::Equal));
    assert!(a != b);
}

#[test]
fn copies_are_equal() {
    let a = NativeDuration::from_millis(42);
    let b = a;
    assert_eq!(a, b);
    assert_eq!(a.clone(), b);
}
