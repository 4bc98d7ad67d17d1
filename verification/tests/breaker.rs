use circuitbreaker_rs::{
    BreakerBuilder, BreakerError, BreakerPolicy, CircuitBreaker, DefaultPolicy, Gate,
    HookRegistry, InternalError, MetricSink, NullMetricSink, Ratio, State, TimeBasedPolicy, Transition,
};
use std::cell::{Cell, RefCell};
use std::rc::Rc;

type Hook = Box<dyn Fn()>;

/// A sink that writes down every event it is told of.
struct Recorder {
    events: Rc<RefCell<Vec<String>>>,
}

impl MetricSink for Recorder {
    fn record_state_transition(&self, from: &str, to: &str) {
        self.events.borrow_mut().push(format!("transition {} {}", from, to));
    }

    fn record_error_rate(&self, rate: Ratio) {
        self.events.borrow_mut().push(format!("error_rate {}/{}", rate.num, rate.den));
    }

    fn record_probe_attempt(&self, success: bool) {
        self.events.borrow_mut().push(format!("probe {}", success));
    }

    fn record_call(&self, success: bool, duration: u64) {
        self.events.borrow_mut().push(format!("call {} {}", success, duration));
    }
}

fn default_breaker(
    failures: u64,
    successes: u64,
    cooldown: u64,
    probes: u32,
) -> CircuitBreaker<DefaultPolicy, NullMetricSink, Hook> {
    CircuitBreaker::<DefaultPolicy, NullMetricSink, Hook>::builder()
        .failure_threshold(Ratio::new(1, 2))
        .min_throughput(1000)
        .consecutive_failures(failures)
        .consecutive_successes(successes)
        .cooldown(cooldown)
        .probe_interval(probes)
        .build()
}

/// One call that arrives and ends at `now`.
fn run<P: BreakerPolicy, M: MetricSink>(
    breaker: &mut CircuitBreaker<P, M, Hook>,
    success: bool,
    now: u64,
) -> Option<Option<Transition>> {
    let gate = breaker.pre_call(now);
    if !gate.is_admitted() {
        return None;
    }
    Some(breaker.post_call(gate.state_after(), success, 0, now))
}

#[test]
fn new_breaker_is_closed_and_empty() {
    let breaker = CircuitBreaker::new(
        DefaultPolicy::new(Ratio::new(1, 2), 10, 5, 3),
        100,
        5,
        NullMetricSink,
        HookRegistry::<Hook>::new(),
    );
    assert_eq!(breaker.current_state(), State::Closed);
    assert_eq!(breaker.error_rate(), Ratio::new(0, 0));
    assert_eq!(breaker.stats().get_total_calls(), 0);
}

#[test]
fn statistics_add_up_after_each_call() {
    let mut breaker = default_breaker(1000, 3, 100, 5);
    let outcomes = [true, false, true, true, false, false, true];
    for (index, success) in outcomes.iter().enumerate() {
        run(&mut breaker, *success, index as u64);
        let stats = breaker.stats();
        assert_eq!(
            stats.get_total_calls(),
            stats.get_success_count() + stats.get_failure_count()
        );
        assert_eq!(stats.get_total_calls(), index as u64 + 1);
    }
    assert_eq!(breaker.error_rate(), Ratio::new(3, 7));
}

#[test]
fn streak_of_failures_trips_within_the_same_call() {
    let mut breaker = default_breaker(3, 3, 100, 5);
    assert_eq!(run(&mut breaker, false, 1), Some(None));
    assert_eq!(run(&mut breaker, false, 2), Some(None));
    assert_eq!(breaker.current_state(), State::Closed);
    assert_eq!(
        run(&mut breaker, false, 3),
        Some(Some(Transition { from: State::Closed, to: State::Open }))
    );
    assert_eq!(breaker.current_state(), State::Open);
}

#[test]
fn a_success_in_between_starts_the_streak_anew() {
    let mut breaker = default_breaker(3, 3, 100, 5);
    run(&mut breaker, false, 1);
    run(&mut breaker, false, 2);
    run(&mut breaker, true, 3);
    run(&mut breaker, false, 4);
    run(&mut breaker, false, 5);
    assert_eq!(breaker.current_state(), State::Closed);
    run(&mut breaker, false, 6);
    assert_eq!(breaker.current_state(), State::Open);
}

#[test]
fn error_rate_trips_once_enough_calls_were_seen() {
    let mut breaker = CircuitBreaker::<DefaultPolicy, NullMetricSink, Hook>::builder()
        .failure_threshold(Ratio::new(1, 2))
        .min_throughput(4)
        .consecutive_failures(100)
        .build();
    run(&mut breaker, true, 1);
    run(&mut breaker, true, 2);
    run(&mut breaker, false, 3);
    assert_eq!(breaker.current_state(), State::Closed);
    run(&mut breaker, false, 4);
    assert_eq!(breaker.current_state(), State::Open);
    assert_eq!(breaker.error_rate(), Ratio::new(2, 4));
}

#[test]
fn open_circuit_rejects_until_the_cooldown_is_over() {
    let mut breaker = default_breaker(1, 3, 100, 5);
    run(&mut breaker, false, 10);
    assert_eq!(breaker.current_state(), State::Open);
    for now in [10u64, 11, 50, 109] {
        assert_eq!(breaker.pre_call(now), Gate::Cooling);
        assert_eq!(breaker.current_state(), State::Open);
    }
    assert_eq!(breaker.stats().get_total_calls(), 1);
    assert_eq!(breaker.pre_call(110), Gate::FirstProbe);
    assert_eq!(breaker.current_state(), State::HalfOpen);
}

#[test]
fn rejected_call_does_not_run_the_wrapped_function() {
    let mut breaker = default_breaker(1, 3, 30_000_000_000, 5);
    let calls = Cell::new(0u32);
    let result = breaker.call(|| -> Result<u32, String> {
        calls.set(calls.get() + 1);
        Err("down".to_string())
    });
    assert!(matches!(result, Err(BreakerError::Operation(_))));
    assert_eq!(calls.get(), 1);
    assert_eq!(breaker.current_state(), State::Open);
    for _ in 0..10 {
        let result = breaker.call(|| -> Result<u32, String> {
            calls.set(calls.get() + 1);
            Ok(1)
        });
        assert!(matches!(result, Err(BreakerError::Open)));
    }
    assert_eq!(calls.get(), 1);
    assert_eq!(breaker.stats().get_total_calls(), 1);
}

#[test]
fn call_hands_back_what_the_wrapped_function_returns() {
    let mut breaker = default_breaker(5, 3, 100, 5);
    let result = breaker.call(|| -> Result<u32, String> { Ok(42) });
    assert!(matches!(result, Ok(42)));
    let result = breaker.call(|| -> Result<u32, String> { Err("boom".to_string()) });
    match result {
        Err(BreakerError::Operation(text)) => assert_eq!(text, "boom"),
        _ => panic!("the error of the wrapped function must come back"),
    }
    assert_eq!(breaker.stats().get_success_count(), 1);
    assert_eq!(breaker.stats().get_failure_count(), 1);
}

#[test]
fn cooldown_makes_exactly_one_call_the_first_probe() {
    let mut breaker = default_breaker(2, 3, 100_000_000, 3);
    run(&mut breaker, false, 0);
    run(&mut breaker, false, 0);
    assert_eq!(breaker.current_state(), State::Open);
    let now = 150_000_000;
    let gates: Vec<Gate> = (0..8).map(|_| breaker.pre_call(now)).collect();
    assert_eq!(
        gates,
        vec![
            Gate::FirstProbe,
            Gate::Probe,
            Gate::Probe,
            Gate::Probe,
            Gate::Exhausted,
            Gate::Exhausted,
            Gate::Exhausted,
            Gate::Exhausted,
        ]
    );
    assert_eq!(gates.iter().filter(|gate| **gate == Gate::FirstProbe).count(), 1);
    assert_eq!(breaker.current_state(), State::HalfOpen);
}

#[test]
fn exhausted_probes_leave_the_circuit_half_open() {
    let mut breaker = default_breaker(1, 3, 100, 0);
    run(&mut breaker, false, 0);
    assert_eq!(breaker.pre_call(100), Gate::FirstProbe);
    assert_eq!(breaker.pre_call(100), Gate::Exhausted);
    assert_eq!(breaker.pre_call(1_000_000), Gate::Exhausted);
    assert_eq!(breaker.current_state(), State::HalfOpen);
}

#[test]
fn failure_in_half_open_reverts_to_open() {
    let mut breaker = default_breaker(1, 3, 100, 5);
    run(&mut breaker, false, 0);
    assert_eq!(run(&mut breaker, true, 100), Some(None));
    assert_eq!(breaker.current_state(), State::HalfOpen);
    assert_eq!(
        run(&mut breaker, false, 101),
        Some(Some(Transition { from: State::HalfOpen, to: State::Open }))
    );
    assert_eq!(breaker.current_state(), State::Open);
    // The cooldown starts anew.
    assert_eq!(breaker.pre_call(200), Gate::Cooling);
    assert_eq!(breaker.pre_call(201), Gate::FirstProbe);
}

#[test]
fn streak_of_successes_in_half_open_closes_and_clears() {
    let mut breaker = default_breaker(1, 2, 100, 5);
    run(&mut breaker, false, 0);
    assert_eq!(run(&mut breaker, true, 100), Some(None));
    assert_eq!(breaker.current_state(), State::HalfOpen);
    assert_eq!(
        run(&mut breaker, true, 101),
        Some(Some(Transition { from: State::HalfOpen, to: State::Closed }))
    );
    assert_eq!(breaker.current_state(), State::Closed);
    assert_eq!(breaker.error_rate(), Ratio::new(0, 0));
    assert!(Ratio::zero().ge(&breaker.error_rate()));
    assert_eq!(breaker.stats().get_total_calls(), 0);
    assert_eq!(breaker.stats().get_success_count(), 0);
    assert_eq!(breaker.stats().get_failure_count(), 0);
    assert_eq!(breaker.stats().consecutive_successes(), 0);
    assert_eq!(breaker.stats().get_last_failure_time(), None);
}

#[test]
fn force_open_twice() {
    let mut breaker = default_breaker(5, 3, 100, 5);
    assert!(breaker.force_open_at(7));
    assert_eq!(breaker.current_state(), State::Open);
    assert!(!breaker.force_open_at(9));
    assert_eq!(breaker.current_state(), State::Open);
    // The second attempt did not restart the cooldown.
    assert_eq!(breaker.pre_call(107), Gate::FirstProbe);
}

#[test]
fn force_closed_twice() {
    let mut breaker = default_breaker(5, 3, 100, 5);
    assert!(!breaker.force_closed_at(1));
    run(&mut breaker, false, 2);
    breaker.force_open_at(3);
    assert!(breaker.force_closed_at(4));
    assert_eq!(breaker.current_state(), State::Closed);
    assert_eq!(breaker.stats().get_total_calls(), 0);
    run(&mut breaker, false, 5);
    assert!(!breaker.force_closed_at(6));
    assert_eq!(breaker.current_state(), State::Closed);
    // Nothing changed, so nothing was cleared.
    assert_eq!(breaker.stats().get_total_calls(), 1);
}

#[test]
fn force_closed_from_half_open() {
    let mut breaker = default_breaker(1, 3, 100, 5);
    run(&mut breaker, false, 0);
    assert_eq!(breaker.pre_call(100), Gate::FirstProbe);
    assert!(breaker.force_closed_at(101));
    assert_eq!(breaker.current_state(), State::Closed);
}

#[test]
fn outcome_of_a_call_that_the_circuit_has_moved_on_from() {
    let mut breaker = default_breaker(1, 1, 100, 5);
    run(&mut breaker, false, 0);
    assert_eq!(breaker.pre_call(100), Gate::FirstProbe);
    // The circuit is forced closed while the probe is under way.
    assert!(breaker.force_closed_at(101));
    assert_eq!(breaker.post_call(State::HalfOpen, false, 0, 102), None);
    assert_eq!(breaker.current_state(), State::Closed);
    assert_eq!(breaker.stats().get_failure_count(), 1);
}

#[test]
fn settle_acts_on_the_verdict_it_is_given() {
    let mut breaker = default_breaker(100, 100, 100, 5);
    assert_eq!(breaker.settle(State::Closed, false, false, 1), None);
    assert_eq!(breaker.settle(State::Closed, true, false, 1), None);
    // Under a closed circuit the verdict is on tripping, and it does not
    // matter how the call ended.
    assert_eq!(
        breaker.settle(State::Closed, true, true, 1),
        Some(Transition { from: State::Closed, to: State::Open })
    );
    assert!(breaker.force_closed_at(1));
    assert_eq!(
        breaker.settle(State::Closed, false, true, 2),
        Some(Transition { from: State::Closed, to: State::Open })
    );
    assert_eq!(breaker.pre_call(102), Gate::FirstProbe);
    assert_eq!(breaker.settle(State::HalfOpen, true, false, 103), None);
    assert_eq!(
        breaker.settle(State::HalfOpen, true, true, 104),
        Some(Transition { from: State::HalfOpen, to: State::Closed })
    );
    assert_eq!(breaker.current_state(), State::Closed);
}

#[test]
fn reset_stats_clears_the_counters_only() {
    let mut breaker = default_breaker(1, 3, 100, 5);
    run(&mut breaker, false, 0);
    breaker.reset_stats();
    assert_eq!(breaker.stats().get_total_calls(), 0);
    assert_eq!(breaker.current_state(), State::Open);
}

#[test]
fn sink_is_told_of_every_event() {
    let events = Rc::new(RefCell::new(Vec::new()));
    let mut breaker = CircuitBreaker::<DefaultPolicy, NullMetricSink, Hook>::builder()
        .consecutive_failures(1)
        .consecutive_successes(1)
        .cooldown(100)
        .probe_interval(1)
        .metric_sink(Recorder { events: events.clone() })
        .build();
    breaker.pre_call(0);
    breaker.post_call(State::Closed, false, 7, 0);
    breaker.pre_call(50);
    breaker.pre_call(100);
    breaker.pre_call(100);
    breaker.pre_call(100);
    breaker.post_call(State::HalfOpen, false, 8, 101);
    breaker.pre_call(201);
    breaker.post_call(State::HalfOpen, true, 9, 202);
    breaker.force_open_at(300);
    breaker.force_closed_at(301);
    assert_eq!(
        *events.borrow(),
        vec![
            "call false 7",
            "transition closed open",
            "error_rate 1/1",
            "transition open half-open",
            "probe true",
            "probe false",
            "call false 8",
            "transition half-open open",
            "transition open half-open",
            "call true 9",
            "transition half-open closed",
            "transition closed open",
            "transition open closed",
        ]
    );
}

#[test]
fn time_based_policy_is_fed_by_the_breaker() {
    let policy = TimeBasedPolicy::new(1000, 10, Ratio::new(1, 2), 2, 500, 1);
    let mut breaker = BreakerBuilder::<TimeBasedPolicy, NullMetricSink, Hook>::new()
        .policy(policy)
        .cooldown(100)
        .build_with_policy();
    assert_eq!(run(&mut breaker, false, 0), Some(None));
    assert_eq!(
        run(&mut breaker, false, 10),
        Some(Some(Transition { from: State::Closed, to: State::Open }))
    );
    assert_eq!(breaker.policy().can_record(), true);
    // A success right after the cooldown comes too soon after the last failure.
    assert_eq!(run(&mut breaker, true, 110), Some(None));
    assert_eq!(breaker.current_state(), State::HalfOpen);
    // Once the recovery time has passed, a success closes the circuit.
    assert_eq!(
        run(&mut breaker, true, 510),
        Some(Some(Transition { from: State::HalfOpen, to: State::Closed }))
    );
}

#[test]
fn builder_starts_from_the_documented_settings() {
    let mut breaker = CircuitBreaker::<DefaultPolicy, NullMetricSink, Hook>::builder().build();
    // Five failures in a row trip it.
    for now in 0..4u64 {
        run(&mut breaker, false, now);
        assert_eq!(breaker.current_state(), State::Closed);
    }
    run(&mut breaker, false, 4);
    assert_eq!(breaker.current_state(), State::Open);
    // The cooldown is thirty seconds.
    assert_eq!(breaker.pre_call(4 + 29_999_999_999), Gate::Cooling);
    assert_eq!(breaker.pre_call(4 + 30_000_000_000), Gate::FirstProbe);
    // Five more probes are let through.
    for _ in 0..5 {
        assert_eq!(breaker.pre_call(4 + 30_000_000_000), Gate::Probe);
    }
    assert_eq!(breaker.pre_call(4 + 30_000_000_000), Gate::Exhausted);
}

#[test]
fn builder_uses_the_policy_it_is_given() {
    let mut breaker = CircuitBreaker::<DefaultPolicy, NullMetricSink, Hook>::builder()
        .consecutive_failures(5)
        .policy(DefaultPolicy::new(Ratio::new(1, 1), 1000, 1, 1))
        .build();
    run(&mut breaker, false, 0);
    assert_eq!(breaker.current_state(), State::Open);
}

#[test]
fn default_builder_matches_new() {
    let built = BreakerBuilder::<DefaultPolicy, NullMetricSink, Hook>::default().build();
    assert_eq!(built.current_state(), State::Closed);
    assert_eq!(built.stats().get_total_calls(), 0);
}

#[test]
fn gate_tells_whether_and_under_which_state_a_call_runs() {
    assert!(Gate::Pass.is_admitted());
    assert!(Gate::FirstProbe.is_admitted());
    assert!(Gate::Probe.is_admitted());
    assert!(!Gate::Cooling.is_admitted());
    assert!(!Gate::Exhausted.is_admitted());
    assert_eq!(Gate::Pass.state_after(), State::Closed);
    assert_eq!(Gate::FirstProbe.state_after(), State::HalfOpen);
    assert_eq!(Gate::Probe.state_after(), State::HalfOpen);
    assert_eq!(Gate::Cooling.state_after(), State::Open);
    assert_eq!(Gate::Exhausted.state_after(), State::HalfOpen);
}

#[test]
fn clock_of_a_breaker_does_not_run_backwards() {
    let breaker = default_breaker(1, 1, 100, 1);
    let first = breaker.now();
    let second = breaker.now();
    assert!(first <= second);
}

#[test]
fn error_messages() {
    let open: BreakerError<String> = BreakerError::Open;
    assert_eq!(open.message(""), "Circuit breaker is open");
    assert!(open.is_open());
    assert!(open.source().is_none());

    let failed: BreakerError<String> = BreakerError::Operation("disk full".to_string());
    assert_eq!(failed.message("disk full"), "Operation error: disk full");
    assert!(!failed.is_open());
    assert_eq!(failed.source(), Some(&"disk full".to_string()));

    let internal: BreakerError<String> = BreakerError::Internal(InternalError::PolicyEvaluation);
    assert_eq!(
        internal.message(""),
        "Circuit breaker internal error: Error in policy evaluation"
    );
    assert!(internal.source().is_none());

    assert_eq!(
        InternalError::StateTransition.message(),
        "Failed to transition between states"
    );
    assert_eq!(InternalError::FailureTracking.message(), "Error in tracking failures");
    assert_eq!(InternalError::HookExecution.message(), "Hook execution failed");
}

/// A hook that writes its name down when it runs.
fn noting(log: &Rc<RefCell<Vec<String>>>, name: &str) -> Hook {
    let log = log.clone();
    let name = name.to_string();
    Box::new(move || log.borrow_mut().push(name.clone()))
}

fn noting_hooks(log: &Rc<RefCell<Vec<String>>>) -> HookRegistry<Hook> {
    let mut hooks = HookRegistry::new();
    hooks.set_on_open(noting(log, "open"));
    hooks.set_on_close(noting(log, "close"));
    hooks.set_on_half_open(noting(log, "half-open"));
    hooks.set_on_success(noting(log, "success"));
    hooks.set_on_failure(noting(log, "failure"));
    hooks
}

#[test]
fn hooks_run_as_the_events_happen() {
    let log = Rc::new(RefCell::new(Vec::new()));
    let mut breaker = CircuitBreaker::<DefaultPolicy, NullMetricSink, Hook>::builder()
        .consecutive_failures(1)
        .consecutive_successes(1)
        .cooldown(100)
        .hooks(noting_hooks(&log))
        .build();
    run(&mut breaker, true, 0);
    run(&mut breaker, false, 1);
    run(&mut breaker, true, 50);
    run(&mut breaker, false, 101);
    run(&mut breaker, true, 201);
    breaker.force_open_at(300);
    breaker.force_open_at(301);
    breaker.force_closed_at(302);
    breaker.force_closed_at(303);
    assert_eq!(
        *log.borrow(),
        vec![
            "success",
            "failure",
            "open",
            "half-open",
            "failure",
            "open",
            "half-open",
            "success",
            "close",
            "open",
            "close",
        ]
    );
}

#[test]
fn hooks_and_sink_interleave_as_documented() {
    let log = Rc::new(RefCell::new(Vec::new()));
    let mut breaker = CircuitBreaker::<DefaultPolicy, NullMetricSink, Hook>::builder()
        .consecutive_failures(1)
        .cooldown(100)
        .metric_sink(Recorder { events: log.clone() })
        .hooks(noting_hooks(&log))
        .build();
    breaker.pre_call(0);
    breaker.post_call(State::Closed, false, 3, 0);
    breaker.pre_call(100);
    assert_eq!(
        *log.borrow(),
        vec![
            "call false 3",
            "failure",
            "open",
            "transition closed open",
            "error_rate 1/1",
            "half-open",
            "transition open half-open",
        ]
    );
}

#[test]
fn call_runs_hooks_too() {
    let log = Rc::new(RefCell::new(Vec::new()));
    let mut breaker = CircuitBreaker::<DefaultPolicy, NullMetricSink, Hook>::builder()
        .consecutive_failures(1)
        .hooks(noting_hooks(&log))
        .build();
    let _ = breaker.call(|| -> Result<u8, u8> { Ok(1) });
    let _ = breaker.call(|| -> Result<u8, u8> { Err(2) });
    let _ = breaker.call(|| -> Result<u8, u8> { Ok(3) });
    assert_eq!(*log.borrow(), vec!["success", "failure", "open"]);
}

#[test]
fn a_success_trips_a_closed_circuit_when_the_policy_says_so() {
    let log = Rc::new(RefCell::new(Vec::new()));
    let mut breaker = CircuitBreaker::new(
        DefaultPolicy::new(Ratio::new(1, 2), 10, 100, 3),
        1000,
        5,
        Recorder { events: log.clone() },
        noting_hooks(&log),
    );
    let outcomes = [false, true, false, true, false, true, false, true, false];
    for (index, success) in outcomes.iter().enumerate() {
        assert_eq!(run(&mut breaker, *success, index as u64), Some(None));
        assert_eq!(breaker.current_state(), State::Closed);
    }
    log.borrow_mut().clear();
    // The tenth call succeeds: ten calls, half of them failed.
    assert_eq!(
        run(&mut breaker, true, 9),
        Some(Some(Transition { from: State::Closed, to: State::Open }))
    );
    assert_eq!(breaker.current_state(), State::Open);
    assert_eq!(breaker.error_rate(), Ratio::new(5, 10));
    assert_eq!(
        *log.borrow(),
        vec![
            "call true 0",
            "success",
            "open",
            "transition closed open",
            "error_rate 5/10",
        ]
    );
}

#[test]
fn a_success_below_the_thresholds_leaves_the_circuit_closed() {
    let mut breaker = CircuitBreaker::<DefaultPolicy, NullMetricSink, Hook>::builder()
        .failure_threshold(Ratio::new(1, 2))
        .min_throughput(10)
        .consecutive_failures(100)
        .build();
    let outcomes = [false, true, false, true, false, true, false, true, true];
    for (index, success) in outcomes.iter().enumerate() {
        run(&mut breaker, *success, index as u64);
    }
    // Ten calls, four of them failed.
    assert_eq!(run(&mut breaker, true, 9), Some(None));
    assert_eq!(breaker.current_state(), State::Closed);
}

#[test]
fn ask_policy_asks_about_tripping_under_a_closed_circuit() {
    let mut breaker = default_breaker(1, 1, 100, 5);
    breaker.record_outcome(false, 0);
    // One failure: the circuit should trip, and should not close again.
    assert!(breaker.ask_policy(State::Closed, 0));
    assert!(!breaker.ask_policy(State::HalfOpen, 0));
    breaker.record_outcome(true, 1);
    // One success after it: the other way round.
    assert!(!breaker.ask_policy(State::Closed, 1));
    assert!(breaker.ask_policy(State::HalfOpen, 1));
    assert!(breaker.ask_policy(State::Open, 1));
}

#[test]
fn built_breaker_has_the_sink_and_the_hooks_of_the_builder() {
    let log = Rc::new(RefCell::new(Vec::new()));
    let policy = TimeBasedPolicy::new(1000, 10, Ratio::new(1, 2), 1, 500, 1);
    let mut breaker = BreakerBuilder::<TimeBasedPolicy, NullMetricSink, Hook>::new()
        .policy(policy)
        .hooks(noting_hooks(&log))
        .cooldown(100)
        .metric_sink(Recorder { events: log.clone() })
        .probe_interval(2)
        .build_with_policy();
    breaker.pre_call(0);
    breaker.post_call(State::Closed, false, 4, 0);
    assert_eq!(
        *log.borrow(),
        vec![
            "call false 4",
            "failure",
            "open",
            "transition closed open",
            "error_rate 1/1",
        ]
    );
    log.borrow_mut().clear();

    let mut breaker = CircuitBreaker::<DefaultPolicy, NullMetricSink, Hook>::builder()
        .metric_sink(Recorder { events: log.clone() })
        .consecutive_failures(1)
        .hooks(noting_hooks(&log))
        .build();
    breaker.force_open_at(1);
    assert_eq!(*log.borrow(), vec!["open", "transition closed open"]);
}

#[test]
fn of_many_arrivals_after_the_cooldown_one_opens_halfway() {
    for callers in 1..12usize {
        let mut breaker = default_breaker(2, 3, 100, 3);
        run(&mut breaker, false, 0);
        run(&mut breaker, false, 0);
        let gates: Vec<Gate> = (0..callers).map(|_| breaker.pre_call(150)).collect();
        assert_eq!(gates[0], Gate::FirstProbe);
        assert_eq!(gates.iter().filter(|gate| **gate == Gate::FirstProbe).count(), 1);
        let admitted = gates.iter().filter(|gate| gate.is_admitted()).count();
        assert_eq!(admitted, 1 + std::cmp::min(callers - 1, 3));
        assert_eq!(breaker.current_state(), State::HalfOpen);
    }
}
