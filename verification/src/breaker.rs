//! The breaker itself: it lets calls in or turns them away, records how they
//! end, and moves the circuit between its states.

use vstd::prelude::*;
use crate::clock::Clock;
use crate::error::BreakerError;
use crate::hook::HookRegistry;
use crate::metrics::MetricSink;
use crate::policy::BreakerPolicy;
use crate::protocol::{
    all_brought, call_leads, deliver_all, lemma_all_brought_of_both, notices_of_call,
    notices_of_settling, notices_of_step, notices_of_whole_call, recorded, settled, settlement,
    settling_notices, step_notices, verdict, BreakerView, Gate, Notice, Transition,
};
use crate::ratio::Ratio;
use crate::state::{State, StateManager, StateManagerView};
use crate::stats::{BreakerStats, StatsView};

verus! {

/// A circuit breaker around calls to one resource.
///
/// Times are nanoseconds since the breaker was made. The operations that
/// take no time as an argument read it from the breaker's own clock.
pub struct CircuitBreaker<P: BreakerPolicy, M: MetricSink, H: Fn()> {
    state_manager: StateManager,
    policy: P,
    stats: BreakerStats,
    cooldown_duration: u64,
    probes_allowed: u32,
    probe_interval: u32,
    last_probe_time: u64,
    metric_sink: M,
    hooks: HookRegistry<H>,
    clock: Clock,
}

impl<P: BreakerPolicy, M: MetricSink, H: Fn()> View for CircuitBreaker<P, M, H> {
    type V = BreakerView<P::V>;

    closed spec fn view(&self) -> BreakerView<P::V> {
        BreakerView {
            manager: self.state_manager@,
            stats: self.stats@,
            policy: self.policy@,
            cooldown: self.cooldown_duration,
            probes_allowed: self.probes_allowed,
            probe_interval: self.probe_interval,
            last_probe_time: self.last_probe_time,
        }
    }
}

impl<P: BreakerPolicy, M: MetricSink, H: Fn()> CircuitBreaker<P, M, H> {
    /// The hooks that the breaker runs.
    pub closed spec fn hook_registry(&self) -> HookRegistry<H> {
        self.hooks
    }

    /// The sink that the breaker reports to.
    pub closed spec fn sink(&self) -> M {
        self.metric_sink
    }

    /// Whether this breaker has the sink and the hooks of `other`.
    pub open spec fn observed_as(&self, other: &Self) -> bool {
        self.sink() == other.sink() && self.hook_registry() == other.hook_registry()
    }

    /// Whether all these notices have been brought to the sink and the hooks
    /// of this breaker.
    pub open spec fn has_brought(&self, notices: Seq<Notice>) -> bool {
        all_brought(notices, self.sink(), self.hook_registry())
    }

    /// A closed breaker with the given policy, cooldown and number of probes
    /// per half-open phase, which reports to `metric_sink` and runs `hooks`.
    /// Its clock starts at zero.
    pub fn new(
        policy: P,
        cooldown_duration: u64,
        probe_interval: u32,
        metric_sink: M,
        hooks: HookRegistry<H>,
    ) -> (breaker: Self)
        ensures
            breaker@ == (BreakerView {
                manager: StateManagerView { state: State::Closed, since: 0 },
                stats: StatsView::empty(),
                policy: policy@,
                cooldown: cooldown_duration,
                probes_allowed: 0,
                probe_interval,
                last_probe_time: 0,
            }),
            breaker.hook_registry() == hooks,
            breaker.sink() == metric_sink,
    {
        CircuitBreaker {
            state_manager: StateManager::new(0),
            policy,
            stats: BreakerStats::new(),
            cooldown_duration,
            probes_allowed: 0,
            probe_interval,
            last_probe_time: 0,
            metric_sink,
            hooks,
            clock: Clock::start(),
        }
    }

    /// The current state of the circuit.
    pub fn current_state(&self) -> (state: State)
        ensures
            state == self@.manager.state,
    {
        self.state_manager.current()
    }

    /// The error rate over the calls since the circuit last closed.
    pub fn error_rate(&self) -> (rate: Ratio)
        ensures
            rate == self@.stats.error_rate(),
    {
        self.stats.error_rate()
    }

    /// The statistics of the calls since the circuit last closed.
    pub fn stats(&self) -> (stats: &BreakerStats)
        ensures
            stats@ == self@.stats,
    {
        &self.stats
    }

    /// The policy.
    pub fn policy(&self) -> (policy: &P)
        ensures
            policy@ == self@.policy,
    {
        &self.policy
    }

    /// The time on the breaker's clock.
    pub fn now(&self) -> u64 {
        self.clock.now()
    }

    /// Decides on a call that arrives at time `now`, and brings the notices
    /// of the decision to the hooks and the sink.
    pub fn pre_call(&mut self, now: u64) -> (gate: Gate)
        ensures
            gate == old(self)@.gate(now),
            final(self)@ == old(self)@.admitted(now),
            final(self).observed_as(old(self)),
            old(self).has_brought(gate.notices()),
    {
        let gate = match self.state_manager.current() {
            State::Closed => Gate::Pass,
            State::Open => {
                if self.state_manager.time_in_state(now) >= self.cooldown_duration
                    && self.state_manager.attempt_half_open(now) {
                    self.probes_allowed = self.probe_interval;
                    self.last_probe_time = now;
                    Gate::FirstProbe
                } else {
                    Gate::Cooling
                }
            },
            State::HalfOpen => {
                if self.probes_allowed > 0 {
                    self.probes_allowed = self.probes_allowed - 1;
                    Gate::Probe
                } else {
                    Gate::Exhausted
                }
            },
        };
        deliver_all(&gate.to_notices(), &self.metric_sink, &self.hooks);
        gate
    }

    /// Records a completed call in the statistics and in the policy.
    pub fn record_outcome(&mut self, success: bool, now: u64)
        requires
            P::has_room(old(self)@.policy),
        ensures
            final(self)@ == recorded::<P>(old(self)@, success, now),
            final(self).observed_as(old(self)),
    {
        if success {
            self.stats.record_success(now);
            self.policy.record_success(now);
        } else {
            self.stats.record_failure(now);
            self.policy.record_failure(now);
        }
    }

    /// Asks the policy about a breaker that has recorded a call which ran
    /// under the state `ran_under`: if that state is closed, whether the
    /// circuit should trip; otherwise, whether it should close again.
    pub fn ask_policy(&self, ran_under: State, now: u64) -> (answer: bool)
        ensures
            answer == verdict::<P>(self@, ran_under, now),
    {
        if ran_under == State::Closed {
            self.policy.should_trip(&self.stats, now)
        } else {
            self.policy.should_reset(&self.stats, now)
        }
    }

    /// Acts at time `now` on the outcome of a call that ran under the state
    /// `ran_under`, given what the policy says: of a call under a closed
    /// circuit, whether the circuit should trip; of any other, whether it
    /// should close again. The notices of what happened are brought to the
    /// hooks and the sink.
    pub fn settle(&mut self, ran_under: State, success: bool, verdict: bool, now: u64) -> (step:
        Option<Transition>)
        ensures
            step == old(self)@.outcome(ran_under, success, verdict),
            final(self)@ == old(self)@.decided(ran_under, success, verdict, now),
            final(self).observed_as(old(self)),
            old(self).has_brought(
                notices_of_settling(ran_under, success, step, old(self)@.stats.error_rate()),
            ),
    {
        let step = if ran_under == State::Closed {
            let from = self.state_manager.current();
            if verdict && self.state_manager.trip_open(now) {
                Some(Transition { from, to: State::Open })
            } else {
                None
            }
        } else if ran_under == State::HalfOpen {
            if !success {
                if self.state_manager.revert_to_open(now) {
                    Some(Transition { from: State::HalfOpen, to: State::Open })
                } else {
                    None
                }
            } else if verdict && self.state_manager.reset_closed(now) {
                self.stats.reset();
                Some(Transition { from: State::HalfOpen, to: State::Closed })
            } else {
                None
            }
        } else {
            None
        };
        let rate = self.stats.error_rate();
        let notices = settling_notices(ran_under, success, step, rate);
        deliver_all(&notices, &self.metric_sink, &self.hooks);
        step
    }

    /// Takes in the outcome of a call that ran under the state `ran_under`
    /// and completed at time `now` after `duration` nanoseconds: records it,
    /// asks the policy, and moves the circuit as the protocol says. The hooks
    /// and the sink are brought the notices of the call.
    pub fn post_call(&mut self, ran_under: State, success: bool, duration: u64, now: u64) -> (step:
        Option<Transition>)
        requires
            P::has_room(old(self)@.policy),
        ensures
            step == settlement::<P>(old(self)@, ran_under, success, now),
            final(self)@ == settled::<P>(old(self)@, ran_under, success, now),
            final(self).observed_as(old(self)),
            old(self).has_brought(
                notices_of_call(
                    ran_under,
                    success,
                    duration,
                    step,
                    recorded::<P>(old(self)@, success, now).stats.error_rate(),
                ),
            ),
    {
        self.record_outcome(success, now);
        let mut notices: Vec<Notice> = Vec::new();
        notices.push(Notice::Call { success, duration });
        notices.push(Notice::Outcome { success });
        deliver_all(&notices, &self.metric_sink, &self.hooks);
        let answer = self.ask_policy(ran_under, now);
        let ghost rate = self@.stats.error_rate();
        let step = self.settle(ran_under, success, answer, now);
        proof {
            assert(notices@ == seq![
                Notice::Call { success, duration },
                Notice::Outcome { success },
            ]);
            lemma_all_brought_of_both(
                notices@,
                notices_of_settling(ran_under, success, step, rate),
                self.sink(),
                self.hook_registry(),
            );
        }
        step
    }

    /// How one call relates the breaker after it, `self`, to the breaker
    /// before it: the state has changed as [`call_leads`] says, and the
    /// notices of the call have been brought to the sink and the hooks.
    pub open spec fn call_went(self, before: Self, start: u64, end: u64, passed: Option<bool>)
        -> bool {
        &&& call_leads::<P>(before@, start, end, passed, self@)
        &&& before.has_brought(notices_of_whole_call::<P>(before@, start, end, passed))
    }

    /// Runs `f` if the circuit lets the call through, and takes in how it
    /// ends. The result of `f` is handed back as it is, an error wrapped in
    /// [`BreakerError::Operation`]; a call that is turned away ends in
    /// [`BreakerError::Open`] and leaves the statistics untouched.
    pub fn call<F, T, E>(&mut self, f: F) -> (result: Result<T, BreakerError<E>>) where
        F: FnOnce() -> Result<T, E>,

        requires
            f.requires(()),
            P::has_room(old(self)@.policy),
        ensures
            final(self).observed_as(old(self)),
            match result {
                Ok(value) => f.ensures((), Ok(value)) && exists|start: u64, end: u64|
                    final(self).call_went(*old(self), start, end, Some(true)),
                Err(BreakerError::Operation(error)) => f.ensures((), Err(error)) && exists|
                    start: u64,
                    end: u64,
                |
                    final(self).call_went(*old(self), start, end, Some(false)),
                Err(BreakerError::Open) => exists|start: u64, end: u64|
                    final(self).call_went(*old(self), start, end, None),
                Err(BreakerError::Internal(_)) => false,
            },
    {
        let start: u64 = self.clock.now();
        let gate = self.pre_call(start);
        if !gate.is_admitted() {
            assert(self.call_went(*old(self), start, start, None));
            return Err(BreakerError::Open);
        }
        let outcome = f();
        let end: u64 = self.clock.now();
        let success = outcome.is_ok();
        let ghost entered = self@;
        let step = self.post_call(gate.state_after(), success, end.saturating_sub(start), end);
        proof {
            lemma_all_brought_of_both(
                gate.notices(),
                notices_of_call(
                    gate.state(),
                    success,
                    end.saturating_sub(start),
                    step,
                    recorded::<P>(entered, success, end).stats.error_rate(),
                ),
                self.sink(),
                self.hook_registry(),
            );
        }
        assert(self.call_went(*old(self), start, end, Some(success)));
        match outcome {
            Ok(value) => Ok(value),
            Err(error) => Err(BreakerError::Operation(error)),
        }
    }

    /// Opens the circuit at time `now`, whatever the policy says, and brings
    /// the notice of the transition to the hooks and the sink. Returns whether
    /// the state changed: `false` if the circuit was open already.
    pub fn force_open_at(&mut self, now: u64) -> (changed: bool)
        ensures
            changed == (old(self)@.manager.state != State::Open),
            changed == old(self)@.force_open_step().is_some(),
            final(self)@ == old(self)@.forced_open(now),
            final(self).observed_as(old(self)),
            old(self).has_brought(notices_of_step(old(self)@.force_open_step())),
    {
        let current = self.state_manager.current();
        if current == State::Open {
            return false;
        }
        let result = self.state_manager.trip_open(now);
        let step = if result {
            Some(Transition { from: current, to: State::Open })
        } else {
            None
        };
        deliver_all(&step_notices(step), &self.metric_sink, &self.hooks);
        result
    }

    /// Closes the circuit at time `now`, whatever the policy says, clears the
    /// statistics, and brings the notice of the transition to the hooks and
    /// the sink. Returns whether the state changed: `false` if the circuit was
    /// closed already, in which case nothing is cleared.
    pub fn force_closed_at(&mut self, now: u64) -> (changed: bool)
        ensures
            changed == (old(self)@.manager.state != State::Closed),
            changed == old(self)@.force_closed_step().is_some(),
            final(self)@ == old(self)@.forced_closed(now),
            final(self).observed_as(old(self)),
            old(self).has_brought(notices_of_step(old(self)@.force_closed_step())),
    {
        let current = self.state_manager.current();
        if current == State::Closed {
            return false;
        }
        let result = match current {
            State::Open => self.state_manager.transition_from_to(State::Open, State::Closed, now),
            State::HalfOpen => self.state_manager.reset_closed(now),
            State::Closed => false,
        };
        let step = if result {
            self.stats.reset();
            Some(Transition { from: current, to: State::Closed })
        } else {
            None
        };
        deliver_all(&step_notices(step), &self.metric_sink, &self.hooks);
        result
    }

    /// Opens the circuit now, by the breaker's clock. Returns whether the
    /// state changed.
    pub fn force_open(&mut self) -> (changed: bool)
        ensures
            changed == (old(self)@.manager.state != State::Open),
            exists|now: u64| final(self)@ == #[trigger] old(self)@.forced_open(now),
            final(self).observed_as(old(self)),
            old(self).has_brought(notices_of_step(old(self)@.force_open_step())),
    {
        let now: u64 = self.clock.now();
        self.force_open_at(now)
    }

    /// Closes the circuit now, by the breaker's clock, and clears the
    /// statistics. Returns whether the state changed.
    pub fn force_closed(&mut self) -> (changed: bool)
        ensures
            changed == (old(self)@.manager.state != State::Closed),
            exists|now: u64| final(self)@ == #[trigger] old(self)@.forced_closed(now),
            final(self).observed_as(old(self)),
            old(self).has_brought(notices_of_step(old(self)@.force_closed_step())),
    {
        let now: u64 = self.clock.now();
        self.force_closed_at(now)
    }

    /// Clears the statistics.
    pub fn reset_stats(&mut self)
        ensures
            final(self)@ == (BreakerView { stats: StatsView::empty(), ..old(self)@ }),
            final(self).observed_as(old(self)),
    {
        self.stats.reset();
    }
}

} // verus!
