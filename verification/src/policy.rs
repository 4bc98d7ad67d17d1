//! The policies that decide when a breaker trips and when it closes again.

use vstd::prelude::*;
use crate::ratio::Ratio;
use crate::stats::{BreakerStats, StatsView};
use crate::window::{FixedWindow, WindowView};

verus! {

/// A policy decides, from the statistics of a breaker and from what it has
/// noted itself, whether a closed circuit should trip and whether a half-open
/// one should close. The breaker tells it of every completed call.
///
/// A policy says what it decides as functions of its view, so that the
/// breaker can say what it does with any policy. A decision that is made
/// elsewhere is handed to [`crate::CircuitBreaker::settle`] instead.
pub trait BreakerPolicy: View + Sized {
    /// Whether the policy can take note of one more call.
    spec fn has_room(policy: Self::V) -> bool;

    /// Whether the circuit should trip at time `now`.
    spec fn trips(policy: Self::V, stats: StatsView, now: u64) -> bool;

    /// Whether the circuit should close again at time `now`.
    spec fn resets(policy: Self::V, stats: StatsView, now: u64) -> bool;

    /// The policy after it has noted a call of the given outcome at time
    /// `now`.
    spec fn noted(policy: Self::V, success: bool, now: u64) -> Self::V;

    /// Decides whether the circuit should trip at time `now`.
    fn should_trip(&self, stats: &BreakerStats, now: u64) -> (trip: bool)
        ensures
            trip == Self::trips(self@, stats@, now),
    ;

    /// Decides whether the circuit should close again at time `now`.
    fn should_reset(&self, stats: &BreakerStats, now: u64) -> (reset: bool)
        ensures
            reset == Self::resets(self@, stats@, now),
    ;

    /// Tells whether the policy can take note of one more call.
    fn can_record(&self) -> (room: bool)
        ensures
            room == Self::has_room(self@),
    ;

    /// Notes a successful call at time `now`.
    fn record_success(&mut self, now: u64)
        requires
            Self::has_room(old(self)@),
        ensures
            final(self)@ == Self::noted(old(self)@, true, now),
    ;

    /// Notes a failed call at time `now`.
    fn record_failure(&mut self, now: u64)
        requires
            Self::has_room(old(self)@),
        ensures
            final(self)@ == Self::noted(old(self)@, false, now),
    ;
}

/// What a [`DefaultPolicy`] is made of.
pub struct DefaultPolicyView {
    pub failure_threshold: Ratio,
    pub min_throughput: u64,
    pub consecutive_failures_threshold: u64,
    pub consecutive_successes_threshold: u64,
}

impl DefaultPolicyView {
    /// Trips when the error rate has reached the threshold over at least
    /// `min_throughput` calls, or when the streak of failures has reached its
    /// threshold. Either is enough.
    pub open spec fn trips(self, stats: StatsView) -> bool {
        ||| (stats.total_calls >= self.min_throughput && stats.error_rate().at_least(
            self.failure_threshold,
        ))
        ||| stats.consecutive_failures >= self.consecutive_failures_threshold
    }

    /// Closes again when the streak of successes has reached its threshold.
    pub open spec fn resets(self, stats: StatsView) -> bool {
        stats.consecutive_successes >= self.consecutive_successes_threshold
    }

    /// Whether the thresholds are such that statistics without a failure
    /// never trip the circuit: neither the threshold for the error rate nor
    /// that for the streak of failures is zero.
    pub open spec fn never_trips_without_failure(self) -> bool {
        !self.failure_threshold.is_zero() && self.consecutive_failures_threshold > 0
    }
}

/// Trips on the error rate over a minimum of calls or on a streak of
/// failures, and closes again on a streak of successes.
#[derive(Debug, Clone, Copy)]
pub struct DefaultPolicy {
    failure_threshold: Ratio,
    min_throughput: u64,
    consecutive_failures_threshold: u64,
    consecutive_successes_threshold: u64,
}

impl View for DefaultPolicy {
    type V = DefaultPolicyView;

    closed spec fn view(&self) -> DefaultPolicyView {
        DefaultPolicyView {
            failure_threshold: self.failure_threshold,
            min_throughput: self.min_throughput,
            consecutive_failures_threshold: self.consecutive_failures_threshold,
            consecutive_successes_threshold: self.consecutive_successes_threshold,
        }
    }
}

impl DefaultPolicy {
    /// A policy with the given thresholds.
    pub fn new(
        failure_threshold: Ratio,
        min_throughput: u64,
        consecutive_failures_threshold: u64,
        consecutive_successes_threshold: u64,
    ) -> (policy: DefaultPolicy)
        ensures
            policy@ == (DefaultPolicyView {
                failure_threshold,
                min_throughput,
                consecutive_failures_threshold,
                consecutive_successes_threshold,
            }),
    {
        DefaultPolicy {
            failure_threshold,
            min_throughput,
            consecutive_failures_threshold,
            consecutive_successes_threshold,
        }
    }
}

impl BreakerPolicy for DefaultPolicy {
    open spec fn has_room(policy: DefaultPolicyView) -> bool {
        true
    }

    open spec fn trips(policy: DefaultPolicyView, stats: StatsView, now: u64) -> bool {
        policy.trips(stats)
    }

    open spec fn resets(policy: DefaultPolicyView, stats: StatsView, now: u64) -> bool {
        policy.resets(stats)
    }

    open spec fn noted(policy: DefaultPolicyView, success: bool, now: u64) -> DefaultPolicyView {
        policy
    }

    fn should_trip(&self, stats: &BreakerStats, now: u64) -> (trip: bool) {
        let error_rate = stats.error_rate();
        let total_calls: u64 = stats.get_total_calls();
        if total_calls >= self.min_throughput && error_rate.ge(&self.failure_threshold) {
            return true;
        }
        stats.consecutive_failures() >= self.consecutive_failures_threshold
    }

    fn should_reset(&self, stats: &BreakerStats, now: u64) -> (reset: bool) {
        stats.consecutive_successes() >= self.consecutive_successes_threshold
    }

    fn can_record(&self) -> (room: bool) {
        true
    }

    fn record_success(&mut self, now: u64) {
    }

    fn record_failure(&mut self, now: u64) {
    }
}

/// What a [`TimeBasedPolicy`] is made of.
pub struct TimeBasedPolicyView {
    pub window: WindowView,
    pub failure_threshold: Ratio,
    pub min_call_count: u64,
    pub min_recovery_time: u64,
    pub consecutive_successes_threshold: u64,
}

impl TimeBasedPolicyView {
    /// Trips when the error rate of the window has reached the threshold and
    /// the breaker has seen at least `min_call_count` calls.
    pub open spec fn trips(self, stats: StatsView, now: u64) -> bool {
        self.window.rate_at(now).at_least(self.failure_threshold) && stats.total_calls
            >= self.min_call_count
    }

    /// Whether the last failure is so recent at time `now` that the circuit
    /// must stay as it is.
    pub open spec fn recovering(self, stats: StatsView, now: u64) -> bool {
        match stats.last_failure_time {
            Some(time) => now.saturating_sub(time) < self.min_recovery_time,
            None => false,
        }
    }

    /// Closes again when `min_recovery_time` has passed since the last
    /// failure and the streak of successes has reached its threshold.
    pub open spec fn resets(self, stats: StatsView, now: u64) -> bool {
        !self.recovering(stats, now) && stats.consecutive_successes
            >= self.consecutive_successes_threshold
    }

    /// The policy after a call of the given outcome at time `now` has gone
    /// into its window.
    pub open spec fn noted(self, success: bool, now: u64) -> TimeBasedPolicyView {
        TimeBasedPolicyView { window: self.window.recorded(success, now), ..self }
    }
}

/// Trips on the error rate over a sliding window of time, and closes again
/// on a streak of successes once enough time has passed since the last
/// failure.
pub struct TimeBasedPolicy {
    window: FixedWindow,
    failure_threshold: Ratio,
    min_call_count: u64,
    min_recovery_time: u64,
    consecutive_successes_threshold: u64,
}

impl View for TimeBasedPolicy {
    type V = TimeBasedPolicyView;

    closed spec fn view(&self) -> TimeBasedPolicyView {
        TimeBasedPolicyView {
            window: self.window@,
            failure_threshold: self.failure_threshold,
            min_call_count: self.min_call_count,
            min_recovery_time: self.min_recovery_time,
            consecutive_successes_threshold: self.consecutive_successes_threshold,
        }
    }
}

impl TimeBasedPolicy {
    /// A policy over a window of length `window_size`, cut into
    /// `bucket_count` buckets, with the given thresholds.
    pub fn new(
        window_size: u64,
        bucket_count: usize,
        failure_threshold: Ratio,
        min_call_count: u64,
        min_recovery_time: u64,
        consecutive_successes_threshold: u64,
    ) -> (policy: TimeBasedPolicy)
        requires
            bucket_count as u32 != 0,
        ensures
            policy@ == (TimeBasedPolicyView {
                window: WindowView {
                    buckets: Seq::empty(),
                    window_size,
                    bucket_size: window_size / ((bucket_count as u32) as u64),
                },
                failure_threshold,
                min_call_count,
                min_recovery_time,
                consecutive_successes_threshold,
            }),
    {
        TimeBasedPolicy {
            window: FixedWindow::new(window_size, bucket_count),
            failure_threshold,
            min_call_count,
            min_recovery_time,
            consecutive_successes_threshold,
        }
    }
}

impl BreakerPolicy for TimeBasedPolicy {
    open spec fn has_room(policy: TimeBasedPolicyView) -> bool {
        policy.window.has_room()
    }

    open spec fn trips(policy: TimeBasedPolicyView, stats: StatsView, now: u64) -> bool {
        policy.trips(stats, now)
    }

    open spec fn resets(policy: TimeBasedPolicyView, stats: StatsView, now: u64) -> bool {
        policy.resets(stats, now)
    }

    open spec fn noted(
        policy: TimeBasedPolicyView,
        success: bool,
        now: u64,
    ) -> TimeBasedPolicyView {
        policy.noted(success, now)
    }

    fn should_trip(&self, stats: &BreakerStats, now: u64) -> (trip: bool) {
        let window_error_rate = self.window.rate_at(now);
        let total_calls: u64 = stats.get_total_calls();
        window_error_rate.ge(&self.failure_threshold) && total_calls >= self.min_call_count
    }

    fn should_reset(&self, stats: &BreakerStats, now: u64) -> (reset: bool) {
        let last_failure = stats.get_last_failure_time();
        if let Some(time) = last_failure {
            if now.saturating_sub(time) < self.min_recovery_time {
                return false;
            }
        }
        stats.consecutive_successes() >= self.consecutive_successes_threshold
    }

    fn can_record(&self) -> (room: bool) {
        self.window.has_room()
    }

    fn record_success(&mut self, now: u64) {
        self.window.record_success(now);
    }

    fn record_failure(&mut self, now: u64) {
        self.window.record_failure(now);
    }
}

} // verus!
