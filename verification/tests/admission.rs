use print_jobs::admission::RequestCounter;

#[test]
fn admission_grants_up_to_capacity_and_then_denies() {
    let mut counter = RequestCounter::new(2);
    let first = counter.enter();
    let second = counter.enter();
    let third = counter.enter();
    assert!(first.is_some());
    assert!(second.is_some());
    assert!(third.is_none());
    assert_eq!(counter.available(), 0);

    counter.release(first.unwrap());
    assert_eq!(counter.available(), 1);
    let fourth = counter.enter();
    let fifth = counter.enter();
    assert!(fourth.is_some());
    assert!(fifth.is_none());
}

#[test]
fn admission_with_no_capacity_denies_at_once() {
    let mut counter = RequestCounter::new(0);
    assert!(counter.enter().is_none());
    assert_eq!(counter.available(), 0);
    assert_eq!(counter.capacity(), 0);
}

#[test]
fn fresh_counter_has_all_units_available() {
    let counter = RequestCounter::new(10);
    assert_eq!(counter.capacity(), 10);
    assert_eq!(counter.available(), 10);
}

#[test]
fn denied_attempt_leaves_the_counter_unchanged() {
    let mut counter = RequestCounter::new(1);
    let held = counter.enter().unwrap();
    let before = counter.available();
    assert!(counter.enter().is_none());
    assert_eq!(counter.available(), before);
    counter.release(held);
    assert_eq!(counter.available(), 1);
}
