//! A builder that collects the settings of a breaker one by one.

use vstd::prelude::*;
use crate::breaker::CircuitBreaker;
use crate::hook::{HookEvent, HookRegistry};
use crate::metrics::{MetricSink, NullMetricSink};
use crate::policy::{BreakerPolicy, DefaultPolicy, DefaultPolicyView};
use crate::protocol::BreakerView;
use crate::ratio::Ratio;
use crate::state::{State, StateManagerView};
use crate::stats::StatsView;

verus! {

/// The settings that a [`BreakerBuilder`] has collected.
pub struct BuilderView<PV> {
    /// The error rate at which the default policy trips.
    pub failure_threshold: Ratio,
    /// The calls that the default policy wants to have seen before it looks
    /// at the error rate.
    pub min_throughput: u64,
    /// How long the circuit stays open before a probe is let through.
    pub cooldown: u64,
    /// The probes granted each time the circuit becomes half-open.
    pub probe_interval: u32,
    /// The streak of failures at which the default policy trips.
    pub consecutive_failures_threshold: u64,
    /// The streak of successes at which the default policy closes the
    /// circuit again.
    pub consecutive_successes_threshold: u64,
    /// The policy that was given, if one was.
    pub policy: Option<PV>,
}

impl<PV> BuilderView<PV> {
    /// The settings that a new builder starts from: a failure threshold of
    /// one half over at least ten calls, a cooldown of thirty seconds, five
    /// probes, a streak of five failures to trip and of three successes to
    /// close, and no policy given.
    pub open spec fn initial() -> BuilderView<PV> {
        BuilderView {
            failure_threshold: Ratio { num: 1, den: 2 },
            min_throughput: 10,
            cooldown: 30_000_000_000,
            probe_interval: 5,
            consecutive_failures_threshold: 5,
            consecutive_successes_threshold: 3,
            policy: None,
        }
    }

    /// The default policy that the thresholds describe.
    pub open spec fn default_policy(self) -> DefaultPolicyView {
        DefaultPolicyView {
            failure_threshold: self.failure_threshold,
            min_throughput: self.min_throughput,
            consecutive_failures_threshold: self.consecutive_failures_threshold,
            consecutive_successes_threshold: self.consecutive_successes_threshold,
        }
    }

    /// The breaker that is built from these settings around `policy`: closed,
    /// with nothing recorded and its clock at zero.
    pub open spec fn breaker(self, policy: PV) -> BreakerView<PV> {
        BreakerView {
            manager: StateManagerView { state: State::Closed, since: 0 },
            stats: StatsView::empty(),
            policy,
            cooldown: self.cooldown,
            probes_allowed: 0,
            probe_interval: self.probe_interval,
            last_probe_time: 0,
        }
    }
}

/// Collects the settings of a breaker and builds it.
pub struct BreakerBuilder<P: BreakerPolicy, M: MetricSink, H: Fn()> {
    failure_threshold: Ratio,
    min_throughput: u64,
    cooldown_duration: u64,
    probe_interval: u32,
    consecutive_failures_threshold: u64,
    consecutive_successes_threshold: u64,
    policy: Option<P>,
    metric_sink: M,
    hook_registry: HookRegistry<H>,
}

impl<P: BreakerPolicy, M: MetricSink, H: Fn()> View for BreakerBuilder<P, M, H> {
    type V = BuilderView<P::V>;

    closed spec fn view(&self) -> BuilderView<P::V> {
        BuilderView {
            failure_threshold: self.failure_threshold,
            min_throughput: self.min_throughput,
            cooldown: self.cooldown_duration,
            probe_interval: self.probe_interval,
            consecutive_failures_threshold: self.consecutive_failures_threshold,
            consecutive_successes_threshold: self.consecutive_successes_threshold,
            policy: match self.policy {
                Some(policy) => Some(policy@),
                None => None,
            },
        }
    }
}

impl<H: Fn()> Default for BreakerBuilder<DefaultPolicy, NullMetricSink, H> {
    fn default() -> (builder: Self)
        ensures
            builder@ == BuilderView::<DefaultPolicyView>::initial(),
            builder.sink() == NullMetricSink,
            builder.has_no_hook(),
    {
        BreakerBuilder::new()
    }
}

impl<P: BreakerPolicy, H: Fn()> BreakerBuilder<P, NullMetricSink, H> {
    /// A builder with the initial settings, no policy given, no hook, and a
    /// sink that discards every event.
    pub fn new() -> (builder: Self)
        ensures
            builder@ == BuilderView::<P::V>::initial(),
            builder.sink() == NullMetricSink,
            builder.has_no_hook(),
    {
        BreakerBuilder {
            failure_threshold: Ratio::new(1, 2),
            min_throughput: 10,
            cooldown_duration: 30_000_000_000,
            probe_interval: 5,
            consecutive_failures_threshold: 5,
            consecutive_successes_threshold: 3,
            policy: None,
            metric_sink: NullMetricSink,
            hook_registry: HookRegistry::new(),
        }
    }
}

impl<P: BreakerPolicy, M: MetricSink, H: Fn()> BreakerBuilder<P, M, H> {
    /// The hooks that the breaker will run.
    pub closed spec fn hook_registry(&self) -> HookRegistry<H> {
        self.hook_registry
    }

    /// The sink that the breaker will report to.
    pub closed spec fn sink(&self) -> M {
        self.metric_sink
    }

    /// Whether this builder has the sink and the hooks of `other`.
    pub open spec fn observed_as(&self, other: &Self) -> bool {
        self.sink() == other.sink() && self.hook_registry() == other.hook_registry()
    }

    /// Whether no hook is registered.
    pub open spec fn has_no_hook(&self) -> bool {
        forall|event: HookEvent| (#[trigger] self.hook_registry().hook(event)) is None
    }

    /// Sets the error rate at which the default policy trips.
    pub fn failure_threshold(self, threshold: Ratio) -> (builder: Self)
        ensures
            builder@ == (BuilderView { failure_threshold: threshold, ..self@ }),
            builder.observed_as(&self),
    {
        let mut builder = self;
        builder.failure_threshold = threshold;
        builder
    }

    /// Sets the number of calls that the default policy wants to have seen
    /// before it looks at the error rate.
    pub fn min_throughput(self, min_throughput: u64) -> (builder: Self)
        ensures
            builder@ == (BuilderView { min_throughput, ..self@ }),
            builder.observed_as(&self),
    {
        let mut builder = self;
        builder.min_throughput = min_throughput;
        builder
    }

    /// Sets how long the circuit stays open before a probe is let through,
    /// in nanoseconds.
    pub fn cooldown(self, duration: u64) -> (builder: Self)
        ensures
            builder@ == (BuilderView { cooldown: duration, ..self@ }),
            builder.observed_as(&self),
    {
        let mut builder = self;
        builder.cooldown_duration = duration;
        builder
    }

    /// Sets the number of probes granted each time the circuit becomes
    /// half-open.
    pub fn probe_interval(self, interval: u32) -> (builder: Self)
        ensures
            builder@ == (BuilderView { probe_interval: interval, ..self@ }),
            builder.observed_as(&self),
    {
        let mut builder = self;
        builder.probe_interval = interval;
        builder
    }

    /// Sets the streak of failures at which the default policy trips.
    pub fn consecutive_failures(self, count: u64) -> (builder: Self)
        ensures
            builder@ == (BuilderView { consecutive_failures_threshold: count, ..self@ }),
            builder.observed_as(&self),
    {
        let mut builder = self;
        builder.consecutive_failures_threshold = count;
        builder
    }

    /// Sets the streak of successes at which the default policy closes the
    /// circuit again.
    pub fn consecutive_successes(self, count: u64) -> (builder: Self)
        ensures
            builder@ == (BuilderView { consecutive_successes_threshold: count, ..self@ }),
            builder.observed_as(&self),
    {
        let mut builder = self;
        builder.consecutive_successes_threshold = count;
        builder
    }

    /// Gives the policy to build the breaker around.
    pub fn policy(self, policy: P) -> (builder: Self)
        ensures
            builder@ == (BuilderView { policy: Some(policy@), ..self@ }),
            builder.observed_as(&self),
    {
        let mut builder = self;
        builder.policy = Some(policy);
        builder
    }

    /// Gives the sink that the breaker reports to.
    pub fn metric_sink<S: MetricSink>(self, sink: S) -> (builder: BreakerBuilder<P, S, H>)
        ensures
            builder@ == self@,
            builder.sink() == sink,
            builder.hook_registry() == self.hook_registry(),
    {
        BreakerBuilder {
            failure_threshold: self.failure_threshold,
            min_throughput: self.min_throughput,
            cooldown_duration: self.cooldown_duration,
            probe_interval: self.probe_interval,
            consecutive_failures_threshold: self.consecutive_failures_threshold,
            consecutive_successes_threshold: self.consecutive_successes_threshold,
            policy: self.policy,
            metric_sink: sink,
            hook_registry: self.hook_registry,
        }
    }

    /// Gives the hooks that the breaker runs.
    pub fn hooks<G: Fn()>(self, hooks: HookRegistry<G>) -> (builder: BreakerBuilder<P, M, G>)
        ensures
            builder@ == self@,
            builder.hook_registry() == hooks,
            builder.sink() == self.sink(),
    {
        BreakerBuilder {
            failure_threshold: self.failure_threshold,
            min_throughput: self.min_throughput,
            cooldown_duration: self.cooldown_duration,
            probe_interval: self.probe_interval,
            consecutive_failures_threshold: self.consecutive_failures_threshold,
            consecutive_successes_threshold: self.consecutive_successes_threshold,
            policy: self.policy,
            metric_sink: self.metric_sink,
            hook_registry: hooks,
        }
    }

    /// Builds the breaker around the policy that was given. One must have
    /// been given.
    pub fn build_with_policy(self) -> (breaker: CircuitBreaker<P, M, H>)
        requires
            self@.policy is Some,
        ensures
            breaker@ == self@.breaker(self@.policy->0),
            breaker.sink() == self.sink(),
            breaker.hook_registry() == self.hook_registry(),
    {
        match self.policy {
            Some(policy) => CircuitBreaker::new(
                policy,
                self.cooldown_duration,
                self.probe_interval,
                self.metric_sink,
                self.hook_registry,
            ),
            None => {
                proof {
                    assert(false);
                }
                unreached()
            },
        }
    }
}

impl<M: MetricSink, H: Fn()> BreakerBuilder<DefaultPolicy, M, H> {
    /// Builds the breaker around the policy that was given or, if none was,
    /// around the default policy with the thresholds collected.
    pub fn build(self) -> (breaker: CircuitBreaker<DefaultPolicy, M, H>)
        ensures
            breaker@ == self@.breaker(
                match self@.policy {
                    Some(policy) => policy,
                    None => self@.default_policy(),
                },
            ),
            breaker.sink() == self.sink(),
            breaker.hook_registry() == self.hook_registry(),
    {
        let policy = match self.policy {
            Some(policy) => policy,
            None => DefaultPolicy::new(
                self.failure_threshold,
                self.min_throughput,
                self.consecutive_failures_threshold,
                self.consecutive_successes_threshold,
            ),
        };
        CircuitBreaker::new(
            policy,
            self.cooldown_duration,
            self.probe_interval,
            self.metric_sink,
            self.hook_registry,
        )
    }
}

impl<H: Fn()> CircuitBreaker<DefaultPolicy, NullMetricSink, H> {
    /// A builder for a breaker, with the initial settings.
    pub fn builder() -> (builder: BreakerBuilder<DefaultPolicy, NullMetricSink, H>)
        ensures
            builder@ == BuilderView::<DefaultPolicyView>::initial(),
            builder.sink() == NullMetricSink,
            builder.has_no_hook(),
    {
        BreakerBuilder::new()
    }
}

} // verus!
