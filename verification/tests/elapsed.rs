use stopwatch::elapsed::{NANOS_PER_MILLI, NANOS_PER_SEC};
use stopwatch::{Elapsed, Measurement};

#[test]
fn zero_is_no_time() {
    let zero = Elapsed::zero();
    assert_eq!(zero.as_nanos(), 0);
    assert_eq!(zero.as_secs(), 0);
    assert_eq!(zero.subsec_nanos(), 0);
    assert_eq!(zero, Elapsed::from_nanos(0));
    assert_eq!(zero, Elapsed::from_millis(0));
}

#[test]
fn units_are_a_thousand_apart() {
    assert_eq!(NANOS_PER_MILLI, 1_000_000);
    assert_eq!(NANOS_PER_SEC, 1_000 * NANOS_PER_MILLI);
}

#[test]
fn from_nanos_keeps_the_count() {
    assert_eq!(Elapsed::from_nanos(1).as_nanos(), 1);
    assert_eq!(Elapsed::from_nanos(u128::MAX).as_nanos(), u128::MAX);
}

#[test]
fn seconds_and_the_rest_split_the_count() {
    let elapsed = Elapsed::from_nanos(1_234_567_891);
    assert_eq!(elapsed.as_secs(), 1);
    assert_eq!(elapsed.subsec_nanos(), 234_567_891);
    let below = Elapsed::from_nanos(999_999_999);
    assert_eq!(below.as_secs(), 0);
    assert_eq!(below.subsec_nanos(), 999_999_999);
    let exact = Elapsed::from_nanos(1_000_000_000);
    assert_eq!(exact.as_secs(), 1);
    assert_eq!(exact.subsec_nanos(), 0);
    let most = Elapsed::from_nanos(u128::MAX);
    assert_eq!(most.as_secs(), 340_282_366_920_938_463_463_374_607_431);
    assert_eq!(most.subsec_nanos(), 768_211_455);
}

#[test]
fn whole_milliseconds_are_kept_exactly() {
    let elapsed = Elapsed::from_millis(1234);
    assert_eq!(elapsed.as_nanos(), 1_234_000_000);
    assert_eq!(elapsed.as_secs(), 1);
    assert_eq!(elapsed.subsec_nanos(), 234_000_000);
    assert_eq!(
        elapsed.as_secs() * 1000 + (elapsed.subsec_nanos() as u128) / NANOS_PER_MILLI,
        1234
    );
    assert_eq!((elapsed.subsec_nanos() as u128) % NANOS_PER_MILLI, 0);
}

#[test]
fn the_longest_whole_milliseconds_fit() {
    let elapsed = Elapsed::from_millis(u64::MAX);
    assert_eq!(elapsed.as_nanos(), (u64::MAX as u128) * 1_000_000);
    assert_eq!(elapsed.as_secs(), 18_446_744_073_709_551);
    assert_eq!(elapsed.subsec_nanos(), 615_000_000);
}

#[test]
fn between_is_the_difference_or_zero() {
    assert_eq!(Elapsed::between(100, 350), Elapsed::from_nanos(250));
    assert_eq!(Elapsed::between(100, 100), Elapsed::zero());
    assert_eq!(Elapsed::between(350, 100), Elapsed::zero());
    assert_eq!(Elapsed::between(0, u128::MAX), Elapsed::from_nanos(u128::MAX));
    assert_eq!(Elapsed::between(u128::MAX, 0), Elapsed::zero());
}

#[test]
fn a_measurement_stands_for_its_time() {
    let measured = Measurement::Measured(Elapsed::from_nanos(42));
    assert!(measured.found());
    assert_eq!(measured.elapsed(), Elapsed::from_nanos(42));
    let missing = Measurement::NotFound;
    assert!(!missing.found());
    assert_eq!(missing.elapsed(), Elapsed::zero());
}
