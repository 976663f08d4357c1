use rk_m87_sync::duration::Duration;

#[test]
fn duration_constructors_agree() {
    assert_eq!(Duration::from_millis(1500), Duration::new(1, 500_000_000));
    assert_eq!(Duration::from_secs(2), Duration::from_millis(2000));
    assert_eq!(Duration::new(0, 2_500_000_000), Duration::from_millis(2500));
}

#[test]
fn duration_parts() {
    let d = Duration::new(7, 123_456_789);
    assert_eq!(d.as_secs(), 7);
    assert_eq!(d.subsec_nanos(), 123_456_789);
    let max = Duration::new(u64::MAX, 999_999_999);
    assert_eq!(max.as_secs(), u64::MAX);
    assert_eq!(max.subsec_nanos(), 999_999_999);
}

#[test]
fn duration_arithmetic_and_order() {
    let a = Duration::from_millis(300);
    let b = Duration::from_millis(200);
    assert_eq!(a + b, Duration::from_millis(500));
    assert_eq!(a.saturating_sub(b), Duration::from_millis(100));
    assert_eq!(b.saturating_sub(a), Duration::from_millis(0));
    assert_eq!(a.min(b), b);
    assert_eq!(b.min(a), b);
    assert!(a > b && b < a && a >= a && a <= a);
}
