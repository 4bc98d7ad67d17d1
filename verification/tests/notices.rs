use circuitbreaker_rs::protocol::{
    call_notices, deliver_all, settling_notices, step_notices,
};
use circuitbreaker_rs::{
    Gate, HookEvent, HookRegistry, MetricSink, Notice, Ratio, State, Transition,
};
use std::cell::RefCell;
use std::rc::Rc;

type Hook = Box<dyn Fn()>;

struct Recorder {
    events: Rc<RefCell<Vec<String>>>,
}

impl MetricSink for Recorder {
    fn record_state_transition(&self, from: &str, to: &str) {
        self.events.borrow_mut().push(format!("transition {} {}", from, to));
    }

    fn record_error_rate(&self, rate: Ratio) {
        self.events.borrow_mut().push(format!("error_rate {}/{}", rate.num, rate.den));
    }

    fn record_probe_attempt(&self, success: bool) {
        self.events.borrow_mut().push(format!("probe {}", success));
    }

    fn record_call(&self, success: bool, duration: u64) {
        self.events.borrow_mut().push(format!("call {} {}", success, duration));
    }
}

fn noting(log: &Rc<RefCell<Vec<String>>>, name: &str) -> Hook {
    let log = log.clone();
    let name = name.to_string();
    Box::new(move || log.borrow_mut().push(name.clone()))
}

const TRIP: Transition = Transition { from: State::Closed, to: State::Open };
const REVERT: Transition = Transition { from: State::HalfOpen, to: State::Open };
const CLOSE: Transition = Transition { from: State::HalfOpen, to: State::Closed };

#[test]
fn notices_of_each_gate() {
    assert_eq!(Gate::Pass.to_notices(), vec![]);
    assert_eq!(Gate::Cooling.to_notices(), vec![]);
    assert_eq!(
        Gate::FirstProbe.to_notices(),
        vec![Notice::Moved { step: Transition { from: State::Open, to: State::HalfOpen } }]
    );
    assert_eq!(Gate::Probe.to_notices(), vec![Notice::Probe { admitted: true }]);
    assert_eq!(Gate::Exhausted.to_notices(), vec![Notice::Probe { admitted: false }]);
}

#[test]
fn notices_of_a_step() {
    assert_eq!(step_notices(None), vec![]);
    assert_eq!(step_notices(Some(TRIP)), vec![Notice::Moved { step: TRIP }]);
}

#[test]
fn error_rate_is_told_with_a_trip_only() {
    let rate = Ratio::new(3, 4);
    assert_eq!(
        settling_notices(State::Closed, false, Some(TRIP), rate),
        vec![Notice::Moved { step: TRIP }, Notice::ErrorRate { rate }]
    );
    assert_eq!(
        settling_notices(State::HalfOpen, false, Some(REVERT), rate),
        vec![Notice::Moved { step: REVERT }]
    );
    assert_eq!(
        settling_notices(State::HalfOpen, true, Some(CLOSE), rate),
        vec![Notice::Moved { step: CLOSE }]
    );
    // A trip is told with the error rate whether the call failed or not.
    assert_eq!(
        settling_notices(State::Closed, true, Some(TRIP), rate),
        vec![Notice::Moved { step: TRIP }, Notice::ErrorRate { rate }]
    );
    assert_eq!(settling_notices(State::Closed, false, None, rate), vec![]);
    assert_eq!(settling_notices(State::Closed, true, None, rate), vec![]);
}

#[test]
fn notices_of_a_call_come_in_order() {
    let rate = Ratio::new(1, 2);
    assert_eq!(
        call_notices(State::Closed, true, 15, None, rate),
        vec![
            Notice::Call { success: true, duration: 15 },
            Notice::Outcome { success: true },
        ]
    );
    assert_eq!(
        call_notices(State::Closed, false, 9, Some(TRIP), rate),
        vec![
            Notice::Call { success: false, duration: 9 },
            Notice::Outcome { success: false },
            Notice::Moved { step: TRIP },
            Notice::ErrorRate { rate },
        ]
    );
}

#[test]
fn hook_of_each_notice() {
    assert_eq!(Notice::Call { success: true, duration: 1 }.hook(), None);
    assert_eq!(Notice::ErrorRate { rate: Ratio::zero() }.hook(), None);
    assert_eq!(Notice::Probe { admitted: true }.hook(), None);
    assert_eq!(Notice::Outcome { success: true }.hook(), Some(HookEvent::Success));
    assert_eq!(Notice::Outcome { success: false }.hook(), Some(HookEvent::Failure));
    assert_eq!(Notice::Moved { step: TRIP }.hook(), Some(HookEvent::Open));
    assert_eq!(Notice::Moved { step: CLOSE }.hook(), Some(HookEvent::Close));
    assert_eq!(
        Notice::Moved { step: Transition { from: State::Open, to: State::HalfOpen } }.hook(),
        Some(HookEvent::HalfOpen)
    );
}

#[test]
fn delivery_runs_the_hook_and_then_tells_the_sink() {
    let log = Rc::new(RefCell::new(Vec::new()));
    let sink = Recorder { events: log.clone() };
    let mut hooks: HookRegistry<Hook> = HookRegistry::new();
    hooks.set_on_open(noting(&log, "hook open"));
    hooks.set_on_failure(noting(&log, "hook failure"));
    hooks.set_on_success(noting(&log, "hook success"));

    let notices = call_notices(State::Closed, false, 9, Some(TRIP), Ratio::new(2, 3));
    deliver_all(&notices, &sink, &hooks);
    Notice::Probe { admitted: false }.deliver(&sink, &hooks);
    Notice::Outcome { success: true }.deliver(&sink, &hooks);
    // No hook is registered for closing: the sink alone is told.
    Notice::Moved { step: CLOSE }.deliver(&sink, &hooks);
    assert_eq!(
        *log.borrow(),
        vec![
            "call false 9",
            "hook failure",
            "hook open",
            "transition closed open",
            "error_rate 2/3",
            "probe false",
            "hook success",
            "transition half-open closed",
        ]
    );
}
