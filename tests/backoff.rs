use yagna_zksync::backoff::{Backoff, BackoffPolicy};
use yagna_zksync::task_queue::task_queue_backoff;

#[test]
fn task_queue_policy_values() {
    let p = BackoffPolicy::task_queue();
    assert_eq!(p.initial_interval_ms, 1000);
    assert_eq!(p.multiplier_num, 3);
    assert_eq!(p.multiplier_den, 2);
    assert_eq!(p.max_interval_ms, 10000);
    assert_eq!(p.max_elapsed_ms, 120000);
}

#[test]
fn intervals_grow_by_half_up_to_the_cap() {
    let mut b = task_queue_backoff();
    let mut waits = Vec::new();
    for _ in 0..9 {
        waits.push(b.next_backoff(0).unwrap());
    }
    assert_eq!(waits, vec![1000, 1500, 2250, 3375, 5062, 7593, 10000, 10000, 10000]);
}

#[test]
fn retries_stop_within_the_budget() {
    let mut b = task_queue_backoff();
    let mut elapsed: u64 = 0;
    let mut count = 0;
    while let Some(wait) = b.next_backoff(elapsed) {
        elapsed += wait;
        assert!(elapsed <= 120000);
        count += 1;
    }
    // 1000+1500+2250+3375+5062+7593 = 20780, then 9 waits of 10 s.
    assert_eq!(elapsed, 110780);
    assert_eq!(count, 15);
}

#[test]
fn a_wait_that_would_pass_the_budget_is_refused() {
    let mut b = task_queue_backoff();
    assert_eq!(b.next_backoff(119500), None);
    assert_eq!(b.next_backoff(119000), Some(1000));
    assert_eq!(b.next_backoff(200000), None);
}

#[test]
fn initial_interval_above_cap_is_capped() {
    let policy = BackoffPolicy {
        initial_interval_ms: 50,
        multiplier_num: 2,
        multiplier_den: 1,
        max_interval_ms: 20,
        max_elapsed_ms: 1000,
    };
    let mut b = Backoff::new(policy);
    assert_eq!(b.next_backoff(0), Some(20));
    assert_eq!(b.next_backoff(0), Some(20));
}
