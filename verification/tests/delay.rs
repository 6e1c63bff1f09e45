use follow_audit::delay::DelayPolicy;

#[test]
fn polite_policy_is_800_to_1500() {
    let policy = DelayPolicy::polite();
    assert_eq!((policy.min_ms(), policy.max_ms()), (800, 1500));
}

#[test]
fn polite_samples_stay_within_bounds() {
    let policy = DelayPolicy::polite();
    for _ in 0..2000 {
        let ms = policy.sample();
        assert!((800..=1500).contains(&ms), "{}", ms);
    }
}

#[test]
fn no_delay_policy_samples_zero() {
    let policy = DelayPolicy::none();
    assert_eq!((policy.min_ms(), policy.max_ms()), (0, 0));
    for _ in 0..100 {
        assert_eq!(policy.sample(), 0);
    }
}

#[test]
fn bounds_out_of_order_make_no_policy() {
    assert_eq!(DelayPolicy::new(2, 1), None);
    assert_eq!(DelayPolicy::new(u64::MAX, 0), None);
    assert_eq!(DelayPolicy::new(1500, 800), None);
}

#[test]
fn single_value_policy_samples_that_value() {
    let policy = DelayPolicy::new(37, 37).unwrap();
    assert_eq!((policy.min_ms(), policy.max_ms()), (37, 37));
    assert_eq!(policy.sample(), 37);
    assert_eq!(DelayPolicy::new(u64::MAX, u64::MAX).unwrap().sample(), u64::MAX);
}

#[test]
fn samples_are_drawn_not_fixed() {
    let policy = DelayPolicy::new(0, u64::MAX).unwrap();
    let first = policy.sample();
    let mut differs = false;
    for _ in 0..64 {
        differs = differs || policy.sample() != first;
    }
    assert!(differs);
}

#[test]
fn narrow_policy_reaches_both_bounds() {
    let policy = DelayPolicy::new(10, 11).unwrap();
    let mut seen = [false, false];
    for _ in 0..400 {
        let ms = policy.sample();
        assert!(ms == 10 || ms == 11);
        seen[(ms - 10) as usize] = true;
    }
    assert_eq!(seen, [true, true]);
}
