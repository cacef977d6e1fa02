use retry_delay::delay::{
    jitter, scaled_by_fraction, Exponential, Fibonacci, Fixed, NoDelay, Range,
    FRACTION_DENOMINATOR,
};
use retry_delay::duration::Duration;

#[test]
fn fibonacci() {
    let mut iter = Fibonacci::from_millis(10);
    assert_eq!(iter.next(), Some(Duration::from_millis(10)));
    assert_eq!(iter.next(), Some(Duration::from_millis(10)));
    assert_eq!(iter.next(), Some(Duration::from_millis(20)));
    assert_eq!(iter.next(), Some(Duration::from_millis(30)));
    assert_eq!(iter.next(), Some(Duration::from_millis(50)));
    assert_eq!(iter.next(), Some(Duration::from_millis(80)));
}

#[test]
fn fibonacci_saturates_at_max() {
    let mut iter = Fibonacci::from_millis(u64::MAX);
    assert_eq!(iter.next(), Some(Duration::from_millis(u64::MAX)));
    assert_eq!(iter.next(), Some(Duration::from_millis(u64::MAX)));
    assert_eq!(iter.next(), Some(Duration::from_millis(u64::MAX)));
}

#[test]
fn exponential_powers_of_two() {
    let mut iter = Exponential::from_millis(2);
    assert_eq!(iter.next(), Some(Duration::from_millis(2)));
    assert_eq!(iter.next(), Some(Duration::from_millis(4)));
    assert_eq!(iter.next(), Some(Duration::from_millis(8)));
    assert_eq!(iter.next(), Some(Duration::from_millis(16)));
    assert_eq!(iter.next(), Some(Duration::from_millis(32)));
}

#[test]
fn exponential_powers_of_ten() {
    let mut iter = Exponential::from_millis(10);
    assert_eq!(iter.next(), Some(Duration::from_millis(10)));
    assert_eq!(iter.next(), Some(Duration::from_millis(100)));
    assert_eq!(iter.next(), Some(Duration::from_millis(1000)));
}

#[test]
fn exponential_saturates_at_max() {
    let mut iter = Exponential::from_millis(u64::MAX);
    assert_eq!(iter.next(), Some(Duration::from_millis(u64::MAX)));
    assert_eq!(iter.next(), Some(Duration::from_millis(u64::MAX)));
}

#[test]
fn fixed_thousand_pulls_are_equal() {
    let expected = Duration::from_millis(123);
    let mut iter = Fixed::from_millis(123);
    for _ in 0..1000 {
        assert_eq!(iter.next(), Some(expected));
    }
}

#[test]
fn no_delay_is_always_zero() {
    let zero = Duration::from_millis(0);
    let mut iter = NoDelay;
    for _ in 0..1000 {
        assert_eq!(iter.next(), Some(zero));
    }
}

#[test]
fn duration_from_millis_splits_components() {
    let d = Duration::from_millis(1500);
    assert_eq!(d.secs, 1);
    assert_eq!(d.nanos, 500_000_000);
    let e = Duration::from_millis(999);
    assert_eq!(e.secs, 0);
    assert_eq!(e.nanos, 999_000_000);
    let z = Duration::from_millis(0);
    assert_eq!(z.secs, 0);
    assert_eq!(z.nanos, 0);
    assert_eq!(Duration::zero(), z);
    let p = Duration::new(3, 5);
    assert_eq!(p.secs, 3);
    assert_eq!(p.nanos, 5);
}

#[test]
fn range_pulls_stay_inside_bounds() {
    let mut iter = Range::from_millis(5, 15).unwrap();
    let mut counts = [0u32; 10];
    for _ in 0..10_000 {
        let d = iter.next().unwrap();
        assert_eq!(d.secs, 0);
        assert!(d.nanos >= 5_000_000);
        assert!(d.nanos < 15_000_000);
        assert_eq!(d.nanos % 1_000_000, 0);
        let millis = d.nanos / 1_000_000;
        counts[(millis - 5) as usize] += 1;
    }
    // Roughly uniform: each of the ten values expects about 1000 of the
    // 10,000 draws; allow a generous tolerance.
    for &c in counts.iter() {
        assert!(c > 700, "draw count {} far below uniform expectation", c);
        assert!(c < 1300, "draw count {} far above uniform expectation", c);
    }
}

#[test]
fn range_keeps_its_bounds() {
    let mut iter = Range::from_millis(0, 2).unwrap();
    assert_eq!(iter.minimum, 0);
    assert_eq!(iter.maximum, 2);
    for _ in 0..100 {
        let d = iter.next().unwrap();
        assert!(d.nanos == 0 || d.nanos == 1_000_000);
        assert_eq!(d.secs, 0);
    }
    assert_eq!(iter.minimum, 0);
    assert_eq!(iter.maximum, 2);
}

#[test]
fn range_rejects_reversed_bounds() {
    assert!(Range::from_millis(15, 5).is_none());
}

#[test]
fn range_rejects_empty_interval() {
    assert!(Range::from_millis(5, 5).is_none());
}

#[test]
fn jitter_stays_within_the_input() {
    let d = Duration::from_millis(1500);
    let mut distinct: Vec<(u64, u32)> = Vec::new();
    let mut saw_nonzero = false;
    for _ in 0..10_000 {
        let r = jitter(d);
        assert!(r.secs <= d.secs);
        assert!(r.nanos <= d.nanos);
        if r.secs > 0 || r.nanos > 0 {
            saw_nonzero = true;
        }
        if !distinct.contains(&(r.secs, r.nanos)) {
            distinct.push((r.secs, r.nanos));
        }
    }
    // The distribution is not degenerate: not one constant value, and not
    // always zero.
    assert!(distinct.len() > 1);
    assert!(saw_nonzero);
}

#[test]
fn scaling_by_the_full_fraction_is_identity() {
    let d = Duration::from_millis(2000);
    assert_eq!(scaled_by_fraction(d, FRACTION_DENOMINATOR), d);
}

#[test]
fn scaling_by_zero_gives_zero() {
    let d = Duration::from_millis(2000);
    assert_eq!(scaled_by_fraction(d, 0), Duration::from_millis(0));
}

#[test]
fn scaling_rounds_each_component_up() {
    // Half of the denominator, rounded down, scales ten seconds to five:
    // ceil((10 * 2147483647 + 4294967294) / 4294967295) == 5.
    let d = Duration::new(10, 0);
    let r = scaled_by_fraction(d, 2_147_483_647);
    assert_eq!(r.secs, 5);
    assert_eq!(r.nanos, 0);
    // One single nanosecond scaled by the smallest positive fraction still
    // rounds up to one nanosecond.
    let tiny = Duration::new(0, 1);
    let s = scaled_by_fraction(tiny, 1);
    assert_eq!(s.secs, 0);
    assert_eq!(s.nanos, 1);
}
