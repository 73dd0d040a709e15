use regmap_hal::time::{Delta, NSEC_PER_MSEC, NSEC_PER_SEC, NSEC_PER_USEC};

#[test]
fn units_are_powers_of_a_thousand() {
    assert_eq!(NSEC_PER_USEC, 1_000);
    assert_eq!(NSEC_PER_MSEC, 1_000_000);
    assert_eq!(NSEC_PER_SEC, 1_000_000_000);
}

#[test]
fn from_nanos_keeps_the_count() {
    assert_eq!(Delta::from_nanos(100).as_nanos(), 100);
    assert_eq!(Delta::from_nanos(-7).as_nanos(), -7);
    assert_eq!(Delta::from_nanos(i64::MAX).as_nanos(), i64::MAX);
}

#[test]
fn from_micros_scales_by_a_thousand() {
    assert_eq!(Delta::from_micros(3).as_nanos(), 3_000);
    assert_eq!(Delta::from_micros(-3).as_nanos(), -3_000);
    assert_eq!(Delta::from_micros(0).as_nanos(), 0);
}

#[test]
fn from_millis_scales_by_a_million() {
    assert_eq!(Delta::from_millis(30).as_nanos(), 30_000_000);
    assert_eq!(Delta::from_millis(120).as_nanos(), 120_000_000);
    assert_eq!(Delta::from_millis(-1).as_nanos(), -1_000_000);
}

#[test]
fn from_secs_scales_by_a_billion() {
    assert_eq!(Delta::from_secs(2).as_nanos(), 2_000_000_000);
    assert_eq!(Delta::from_secs(-2).as_nanos(), -2_000_000_000);
}

#[test]
fn constructors_saturate_at_both_ends() {
    assert_eq!(Delta::from_micros(i64::MAX).as_nanos(), i64::MAX);
    assert_eq!(Delta::from_micros(i64::MIN).as_nanos(), i64::MIN);
    assert_eq!(Delta::from_millis(i64::MAX / 1_000_000 + 1).as_nanos(), i64::MAX);
    assert_eq!(Delta::from_millis(i64::MIN / 1_000_000 - 1).as_nanos(), i64::MIN);
    assert_eq!(Delta::from_secs(9_223_372_037).as_nanos(), i64::MAX);
    assert_eq!(Delta::from_secs(-9_223_372_037).as_nanos(), i64::MIN);
    assert_eq!(Delta::from_secs(9_223_372_036).as_nanos(), 9_223_372_036_000_000_000);
    assert_eq!(
        Delta::from_millis(i64::MAX / 1_000_000).as_nanos(),
        9_223_372_036_854_000_000
    );
}

#[test]
fn is_zero_only_for_the_empty_span() {
    assert!(Delta::from_nanos(0).is_zero());
    assert!(Delta::from_millis(0).is_zero());
    assert!(!Delta::from_nanos(1).is_zero());
    assert!(!Delta::from_nanos(-1).is_zero());
}

#[test]
fn conversions_round_toward_zero() {
    let span = Delta::from_nanos(1_999_999_999);
    assert_eq!(span.as_micros(), 1_999_999);
    assert_eq!(span.as_millis(), 1_999);
    assert_eq!(span.as_secs(), 1);
    let back = Delta::from_nanos(-1_999_999_999);
    assert_eq!(back.as_micros(), -1_999_999);
    assert_eq!(back.as_millis(), -1_999);
    assert_eq!(back.as_secs(), -1);
    assert_eq!(Delta::from_nanos(999).as_micros(), 0);
    assert_eq!(Delta::from_nanos(-999).as_micros(), 0);
}

#[test]
fn sleep_length_rounds_up_to_whole_microseconds() {
    assert_eq!(Delta::from_nanos(0).as_micros_ceil(), 0);
    assert_eq!(Delta::from_nanos(1).as_micros_ceil(), 1);
    assert_eq!(Delta::from_nanos(100).as_micros_ceil(), 1);
    assert_eq!(Delta::from_nanos(1_000).as_micros_ceil(), 1);
    assert_eq!(Delta::from_nanos(1_001).as_micros_ceil(), 2);
    assert_eq!(Delta::from_millis(30).as_micros_ceil(), 30_000);
    assert_eq!(Delta::from_nanos(i64::MAX).as_micros_ceil(), 9_223_372_036_854_776);
    assert_eq!(
        Delta::from_nanos(9_223_372_036_854_775_000).as_micros_ceil(),
        9_223_372_036_854_775
    );
}

#[test]
fn sleep_length_of_a_negative_span_follows_the_formula() {
    assert_eq!(Delta::from_nanos(-1).as_micros_ceil(), 0);
    assert_eq!(Delta::from_nanos(-999).as_micros_ceil(), 0);
    assert_eq!(Delta::from_nanos(-1_000).as_micros_ceil(), 0);
    assert_eq!(Delta::from_nanos(-2_000).as_micros_ceil(), -1);
}

#[test]
fn deltas_compare_by_their_length() {
    assert_eq!(Delta::from_millis(1), Delta::from_micros(1_000));
    assert_ne!(Delta::from_millis(1), Delta::from_micros(999));
}
