use rmup::time::Duration;

#[test]
fn durations_are_built_from_parts() {
    assert_eq!(Duration::zero(), Duration::from_secs(0));
    assert_eq!(Duration::from_millis(1500), Duration::new(1, 500_000_000).unwrap());
    assert_eq!(Duration::new(1, 2_000_000_001).unwrap(), Duration::new(3, 1).unwrap());
    assert!(Duration::new(u64::MAX, 1_000_000_000).is_none());
    assert!(Duration::new(u64::MAX, 999_999_999).is_some());
    assert_eq!(Duration::from_millis(61_250).as_secs(), 61);
    assert_eq!(Duration::from_millis(61_250).subsec_nanos(), 250_000_000);
    assert_eq!(Duration::from_millis(u64::MAX).as_secs(), u64::MAX / 1000);
}

#[test]
fn durations_compare() {
    let a = Duration::from_millis(999);
    let b = Duration::from_secs(1);
    assert!(a.is_shorter_than(&b));
    assert!(!b.is_shorter_than(&a));
    assert!(!a.is_shorter_than(&a));
    assert!(a.equals(&a));
    assert!(!a.equals(&b));
    assert!(Duration::zero().is_zero());
    assert!(!a.is_zero());
}

#[test]
fn durations_add() {
    let a = Duration::from_millis(1600);
    let b = Duration::from_millis(700);
    assert_eq!(a.checked_add(&b), Some(Duration::from_millis(2300)));
    assert_eq!(a.saturating_add(&b), Duration::from_millis(2300));
    let longest = Duration::new(u64::MAX, 999_999_999).unwrap();
    assert_eq!(longest.checked_add(&Duration::new(0, 1).unwrap()), None);
    assert_eq!(longest.checked_add(&Duration::zero()), Some(longest));
    assert_eq!(longest.saturating_add(&a), longest);
    assert_eq!(Duration::from_secs(u64::MAX).checked_add(&Duration::from_secs(1)), None);
}

#[test]
fn durations_subtract() {
    let a = Duration::from_millis(2300);
    let b = Duration::from_millis(700);
    assert_eq!(a.checked_sub(&b), Some(Duration::from_millis(1600)));
    assert_eq!(b.checked_sub(&a), None);
    assert_eq!(a.checked_sub(&a), Some(Duration::zero()));
    assert_eq!(b.saturating_sub(&a), Duration::zero());
    assert_eq!(a.saturating_sub(&b), Duration::from_millis(1600));
    assert_eq!(Duration::from_secs(1).checked_sub(&Duration::new(0, 1).unwrap()), Duration::new(0, 999_999_999));
}
