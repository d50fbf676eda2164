use hedera::backoff::Backoff;
use hedera::status::{StatusClass, StatusPolicy};

#[test]
fn delay_doubles_until_the_maximum() {
    let backoff = Backoff { base_delay: 250, max_delay: 8000 };
    assert_eq!(backoff.delay(0), 250);
    assert_eq!(backoff.delay(1), 500);
    assert_eq!(backoff.delay(2), 1000);
    assert_eq!(backoff.delay(4), 4000);
    assert_eq!(backoff.delay(5), 8000);
    assert_eq!(backoff.delay(6), 8000);
    assert_eq!(backoff.delay(u32::MAX), 8000);
}

#[test]
fn delay_is_capped_between_two_powers() {
    let backoff = Backoff { base_delay: 300, max_delay: 1000 };
    assert_eq!(backoff.delay(0), 300);
    assert_eq!(backoff.delay(1), 600);
    assert_eq!(backoff.delay(2), 1000);
}

#[test]
fn delay_never_decreases_and_stays_below_the_maximum() {
    let backoff = Backoff { base_delay: 3, max_delay: 100_000 };
    let mut last = 0;
    for attempt in 0..40 {
        let delay = backoff.delay(attempt);
        assert!(delay >= last);
        assert!(delay <= 100_000);
        last = delay;
    }
    assert_eq!(last, 100_000);
}

#[test]
fn delay_at_the_edges_of_the_machine() {
    assert_eq!(Backoff { base_delay: 0, max_delay: 10 }.delay(u32::MAX), 0);
    assert_eq!(Backoff { base_delay: 5, max_delay: 0 }.delay(0), 0);
    assert_eq!(Backoff { base_delay: u64::MAX, max_delay: u64::MAX }.delay(3), u64::MAX);
    assert_eq!(Backoff { base_delay: 1, max_delay: u64::MAX }.delay(63), 1 << 63);
    assert_eq!(Backoff { base_delay: 1, max_delay: u64::MAX }.delay(64), u64::MAX);
    assert_eq!(Backoff { base_delay: 7, max_delay: 7 }.delay(0), 7);
}

#[test]
fn status_is_classified_by_the_table() {
    let policy = StatusPolicy::new(vec![0, 22], vec![12, 67]);
    assert_eq!(policy.classify(0), StatusClass::Accepted);
    assert_eq!(policy.classify(22), StatusClass::Accepted);
    assert_eq!(policy.classify(12), StatusClass::Retryable);
    assert_eq!(policy.classify(67), StatusClass::Retryable);
    assert_eq!(policy.classify(7), StatusClass::PermanentFailure);
    assert_eq!(policy.classify(-1), StatusClass::PermanentFailure);
}

#[test]
fn status_in_both_lists_is_accepted() {
    let policy = StatusPolicy::new(vec![5], vec![5]);
    assert_eq!(policy.classify(5), StatusClass::Accepted);
    let copy = policy.duplicate();
    assert_eq!(copy.accepted, vec![5]);
    assert_eq!(copy.retryable, vec![5]);
}

#[test]
fn empty_table_rejects_everything() {
    let policy = StatusPolicy::new(vec![], vec![]);
    assert_eq!(policy.classify(0), StatusClass::PermanentFailure);
}
