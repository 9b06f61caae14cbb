use dstreams::time::Timestamp;

#[test]
fn timestamp_new_keeps_its_parts() {
    let at = Timestamp::new(1_700_000_000, 123_456_789);
    assert_eq!(at.secs, 1_700_000_000);
    assert_eq!(at.nanos, 123_456_789);
    assert_eq!(at, Timestamp { secs: 1_700_000_000, nanos: 123_456_789 });
}

#[test]
fn later_second_is_after() {
    let early = Timestamp::new(10, 999_999_999);
    let late = Timestamp::new(11, 0);
    assert!(late.is_after(&early));
    assert!(!early.is_after(&late));
}

#[test]
fn later_nanosecond_of_the_same_second_is_after() {
    let early = Timestamp::new(10, 5);
    let late = Timestamp::new(10, 6);
    assert!(late.is_after(&early));
    assert!(!early.is_after(&late));
}

#[test]
fn equal_instants_are_not_after_each_other() {
    let a = Timestamp::new(10, 5);
    let b = Timestamp::new(10, 5);
    assert!(!a.is_after(&b));
    assert!(!b.is_after(&a));
}

#[test]
fn instants_before_the_epoch_are_ordered_too() {
    let early = Timestamp::new(-5, 0);
    let late = Timestamp::new(-4, 0);
    assert!(late.is_after(&early));
    assert!(Timestamp::new(0, 0).is_after(&late));
    assert!(!early.is_after(&late));
    assert!(Timestamp::new(i64::MAX, u32::MAX).is_after(&Timestamp::new(i64::MIN, 0)));
}
