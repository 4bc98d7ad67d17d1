//! The running counters of a breaker: how many calls succeeded and failed,
//! the current streak, and when the last success and failure happened.

use vstd::prelude::*;
use crate::ratio::Ratio;

verus! {

/// What a [`BreakerStats`] holds. Counters wrap around at `u64::MAX`.
pub struct StatsView {
    pub success_count: u64,
    pub failure_count: u64,
    pub consecutive_failures: u64,
    pub consecutive_successes: u64,
    pub total_calls: u64,
    pub last_failure_time: Option<u64>,
    pub last_success_time: Option<u64>,
}

impl StatsView {
    /// No call recorded.
    pub open spec fn empty() -> StatsView {
        StatsView {
            success_count: 0,
            failure_count: 0,
            consecutive_failures: 0,
            consecutive_successes: 0,
            total_calls: 0,
            last_failure_time: None,
            last_success_time: None,
        }
    }

    /// The counters after one more success at time `now`: the success streak
    /// grows and the failure streak ends.
    pub open spec fn record_success(self, now: u64) -> StatsView {
        StatsView {
            success_count: self.success_count.wrapping_add(1),
            consecutive_successes: self.consecutive_successes.wrapping_add(1),
            consecutive_failures: 0,
            total_calls: self.total_calls.wrapping_add(1),
            last_success_time: Some(now),
            ..self
        }
    }

    /// The counters after one more failure at time `now`: the failure streak
    /// grows and the success streak ends.
    pub open spec fn record_failure(self, now: u64) -> StatsView {
        StatsView {
            failure_count: self.failure_count.wrapping_add(1),
            consecutive_failures: self.consecutive_failures.wrapping_add(1),
            consecutive_successes: 0,
            total_calls: self.total_calls.wrapping_add(1),
            last_failure_time: Some(now),
            ..self
        }
    }

    /// The counters after one more call with the given outcome.
    pub open spec fn record(self, success: bool, now: u64) -> StatsView {
        if success {
            self.record_success(now)
        } else {
            self.record_failure(now)
        }
    }

    /// Failures over calls; zero when there was no call.
    pub open spec fn error_rate(self) -> Ratio {
        Ratio { num: self.failure_count, den: self.total_calls }
    }

    /// What holds of the counters at all times: the total is the sum of
    /// successes and failures as 64-bit arithmetic computes it, and at most
    /// one of the two streaks is running.
    pub open spec fn consistent(self) -> bool {
        &&& self.total_calls == self.success_count.wrapping_add(self.failure_count)
        &&& (self.consecutive_failures == 0 || self.consecutive_successes == 0)
    }
}

/// Statistics of the calls that went through a breaker.
#[derive(Debug)]
pub struct BreakerStats {
    success_count: u64,
    failure_count: u64,
    consecutive_failures: u64,
    consecutive_successes: u64,
    last_failure_time: Option<u64>,
    last_success_time: Option<u64>,
    total_calls: u64,
}

impl View for BreakerStats {
    type V = StatsView;

    closed spec fn view(&self) -> StatsView {
        StatsView {
            success_count: self.success_count,
            failure_count: self.failure_count,
            consecutive_failures: self.consecutive_failures,
            consecutive_successes: self.consecutive_successes,
            total_calls: self.total_calls,
            last_failure_time: self.last_failure_time,
            last_success_time: self.last_success_time,
        }
    }
}

impl Default for BreakerStats {
    fn default() -> (stats: BreakerStats)
        ensures
            stats@ == StatsView::empty(),
    {
        BreakerStats::new()
    }
}

impl BreakerStats {
    #[verifier::type_invariant]
    spec fn well_formed(self) -> bool {
        self@.consistent()
    }

    /// Statistics with no call recorded.
    pub fn new() -> (stats: BreakerStats)
        ensures
            stats@ == StatsView::empty(),
    {
        BreakerStats {
            success_count: 0,
            failure_count: 0,
            consecutive_failures: 0,
            consecutive_successes: 0,
            last_failure_time: None,
            last_success_time: None,
            total_calls: 0,
        }
    }

    /// The number of successes.
    pub fn get_success_count(&self) -> (count: u64)
        ensures
            count == self@.success_count,
    {
        self.success_count
    }

    /// The number of failures.
    pub fn get_failure_count(&self) -> (count: u64)
        ensures
            count == self@.failure_count,
    {
        self.failure_count
    }

    /// The number of calls.
    pub fn get_total_calls(&self) -> (count: u64)
        ensures
            count == self@.total_calls,
            self@.consistent(),
    {
        proof {
            use_type_invariant(self);
        }
        self.total_calls
    }

    /// The time of the last failure, if there was one since the last reset.
    pub fn get_last_failure_time(&self) -> (time: Option<u64>)
        ensures
            time == self@.last_failure_time,
    {
        self.last_failure_time
    }

    /// The time of the last success, if there was one since the last reset.
    pub fn get_last_success_time(&self) -> (time: Option<u64>)
        ensures
            time == self@.last_success_time,
    {
        self.last_success_time
    }

    /// Records a successful call at time `now`.
    pub fn record_success(&mut self, now: u64)
        ensures
            final(self)@ == old(self)@.record_success(now),
            final(self)@.consistent(),
    {
        proof {
            use_type_invariant(&*self);
        }
        *self = BreakerStats {
            success_count: self.success_count.wrapping_add(1),
            failure_count: self.failure_count,
            consecutive_failures: 0,
            consecutive_successes: self.consecutive_successes.wrapping_add(1),
            last_failure_time: self.last_failure_time,
            last_success_time: Some(now),
            total_calls: self.total_calls.wrapping_add(1),
        };
    }

    /// Records a failed call at time `now`.
    pub fn record_failure(&mut self, now: u64)
        ensures
            final(self)@ == old(self)@.record_failure(now),
            final(self)@.consistent(),
    {
        proof {
            use_type_invariant(&*self);
        }
        *self = BreakerStats {
            success_count: self.success_count,
            failure_count: self.failure_count.wrapping_add(1),
            consecutive_failures: self.consecutive_failures.wrapping_add(1),
            consecutive_successes: 0,
            last_failure_time: Some(now),
            last_success_time: self.last_success_time,
            total_calls: self.total_calls.wrapping_add(1),
        };
    }

    /// Failures over calls; zero when there was no call.
    pub fn error_rate(&self) -> (rate: Ratio)
        ensures
            rate == self@.error_rate(),
    {
        Ratio::new(self.failure_count, self.total_calls)
    }

    /// The length of the current streak of failures.
    pub fn consecutive_failures(&self) -> (count: u64)
        ensures
            count == self@.consecutive_failures,
    {
        self.consecutive_failures
    }

    /// The length of the current streak of successes.
    pub fn consecutive_successes(&self) -> (count: u64)
        ensures
            count == self@.consecutive_successes,
    {
        self.consecutive_successes
    }

    /// Forgets every call: all counters go to zero and both times are
    /// cleared.
    pub fn reset(&mut self)
        ensures
            final(self)@ == StatsView::empty(),
    {
        *self = BreakerStats::new();
    }
}

/// The total of calls is the number of successes plus the number of
/// failures: with no call recorded, after each recorded call, and after a
/// reset.
pub proof fn lemma_total_is_successes_plus_failures(stats: StatsView, success: bool, now: u64)
    requires
        stats.consistent(),
    ensures
        StatsView::empty().consistent(),
        stats.record(success, now).consistent(),
        stats.success_count + stats.failure_count <= u64::MAX ==> stats.total_calls
            == stats.success_count + stats.failure_count,
{
}

/// A success ends the streak of failures and a failure the streak of
/// successes, so the two streaks are never both running.
pub proof fn lemma_streaks_exclude_each_other(stats: StatsView, now: u64)
    ensures
        stats.record_success(now).consecutive_failures == 0,
        stats.record_failure(now).consecutive_successes == 0,
        stats.consecutive_successes < u64::MAX ==> stats.record_success(now).consecutive_successes
            == stats.consecutive_successes + 1,
        stats.consecutive_failures < u64::MAX ==> stats.record_failure(now).consecutive_failures
            == stats.consecutive_failures + 1,
{
}

} // verus!
