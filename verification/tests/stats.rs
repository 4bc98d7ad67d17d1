use circuitbreaker_rs::{BreakerStats, Ratio};

#[test]
fn new_stats_are_empty() {
    let stats = BreakerStats::new();
    assert_eq!(stats.get_success_count(), 0);
    assert_eq!(stats.get_failure_count(), 0);
    assert_eq!(stats.get_total_calls(), 0);
    assert_eq!(stats.consecutive_failures(), 0);
    assert_eq!(stats.consecutive_successes(), 0);
    assert_eq!(stats.get_last_failure_time(), None);
    assert_eq!(stats.get_last_success_time(), None);
    assert_eq!(stats.error_rate(), Ratio::new(0, 0));
    assert!(Ratio::zero().ge(&stats.error_rate()));
}

#[test]
fn default_stats_are_empty() {
    let stats = BreakerStats::default();
    assert_eq!(stats.get_total_calls(), 0);
    assert_eq!(stats.get_last_failure_time(), None);
}

#[test]
fn total_is_successes_plus_failures_after_each_call() {
    let mut stats = BreakerStats::new();
    let outcomes = [true, false, false, true, true, true, false, true, false, false];
    for (index, success) in outcomes.iter().enumerate() {
        if *success {
            stats.record_success(index as u64);
        } else {
            stats.record_failure(index as u64);
        }
        assert_eq!(
            stats.get_total_calls(),
            stats.get_success_count() + stats.get_failure_count()
        );
        assert_eq!(stats.get_total_calls(), index as u64 + 1);
        assert!(stats.consecutive_failures() == 0 || stats.consecutive_successes() == 0);
    }
    assert_eq!(stats.get_success_count(), 5);
    assert_eq!(stats.get_failure_count(), 5);
}

#[test]
fn streaks_end_on_the_opposite_outcome() {
    let mut stats = BreakerStats::new();
    stats.record_failure(1);
    stats.record_failure(2);
    stats.record_failure(3);
    assert_eq!(stats.consecutive_failures(), 3);
    assert_eq!(stats.consecutive_successes(), 0);
    stats.record_success(4);
    assert_eq!(stats.consecutive_failures(), 0);
    assert_eq!(stats.consecutive_successes(), 1);
    stats.record_success(5);
    assert_eq!(stats.consecutive_successes(), 2);
    stats.record_failure(6);
    assert_eq!(stats.consecutive_failures(), 1);
    assert_eq!(stats.consecutive_successes(), 0);
}

#[test]
fn times_of_last_success_and_failure() {
    let mut stats = BreakerStats::new();
    stats.record_success(10);
    assert_eq!(stats.get_last_success_time(), Some(10));
    assert_eq!(stats.get_last_failure_time(), None);
    stats.record_failure(20);
    assert_eq!(stats.get_last_success_time(), Some(10));
    assert_eq!(stats.get_last_failure_time(), Some(20));
    stats.record_failure(15);
    assert_eq!(stats.get_last_failure_time(), Some(15));
}

#[test]
fn error_rate_is_failures_over_total() {
    let mut stats = BreakerStats::new();
    stats.record_failure(1);
    assert_eq!(stats.error_rate(), Ratio::new(1, 1));
    stats.record_success(2);
    stats.record_success(3);
    stats.record_success(4);
    assert_eq!(stats.error_rate(), Ratio::new(1, 4));
    assert!(stats.error_rate().ge(&Ratio::new(1, 4)));
    assert!(!stats.error_rate().ge(&Ratio::new(26, 100)));
}

#[test]
fn reset_clears_everything() {
    let mut stats = BreakerStats::new();
    stats.record_failure(1);
    stats.record_success(2);
    stats.reset();
    assert_eq!(stats.get_success_count(), 0);
    assert_eq!(stats.get_failure_count(), 0);
    assert_eq!(stats.get_total_calls(), 0);
    assert_eq!(stats.consecutive_failures(), 0);
    assert_eq!(stats.consecutive_successes(), 0);
    assert_eq!(stats.get_last_failure_time(), None);
    assert_eq!(stats.get_last_success_time(), None);
    assert_eq!(stats.error_rate(), Ratio::new(0, 0));
}
