use stellar_tipjar::time::Duration;

#[test]
fn duration_parts() {
    let d = Duration::new(1, 2_500_000_000);
    assert_eq!(d.as_secs(), 3);
    assert_eq!(d.subsec_nanos(), 500_000_000);
    assert_eq!(d.as_millis(), 3_500);
    assert_eq!(d.as_nanos(), 3_500_000_000);
    let m = Duration::from_millis(1_234);
    assert_eq!(m.as_secs(), 1);
    assert_eq!(m.subsec_nanos(), 234_000_000);
    assert_eq!(Duration::from_secs(2).as_millis(), 2_000);
    assert_eq!(Duration::from_nanos(1_000_000_001).subsec_nanos(), 1);
    assert_eq!(Duration::from_micros(1_500_000).as_millis(), 1_500);
}

#[test]
fn duration_order() {
    let a = Duration::from_millis(999);
    let b = Duration::from_secs(1);
    assert!(a.is_shorter_than(&b));
    assert!(!b.is_shorter_than(&a));
    assert!(b.is_at_least(&a));
    assert!(b.is_at_least(&Duration::from_nanos(1_000_000_000)));
}
