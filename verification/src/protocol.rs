//! The protocol of a breaker as a function of plain values: what the breaker
//! holds, how a call is let in or turned away, and how the outcome of a call
//! moves the circuit from one state to another.

use vstd::prelude::*;
use crate::hook::{HookEvent, HookRegistry};
use crate::metrics::{MetricSink, SinkEvent};
use crate::policy::{BreakerPolicy, DefaultPolicy, DefaultPolicyView};
use crate::ratio::Ratio;
use crate::state::{State, StateManagerView};
use crate::stats::StatsView;

verus! {

/// What the breaker decides when a call arrives.
#[derive(Debug, Clone, Copy, PartialEq, Eq, Structural)]
pub enum Gate {
    /// The circuit is closed: the call goes through.
    Pass,
    /// The circuit was open and its cooldown is over: it is now half-open and
    /// the call goes through as the first probe.
    FirstProbe,
    /// The circuit is half-open and had a probe left: the call goes through.
    Probe,
    /// The circuit is open and its cooldown is not over: the call is
    /// rejected.
    Cooling,
    /// The circuit is half-open and has no probe left: the call is rejected.
    Exhausted,
}

impl Gate {
    /// Whether the call goes through.
    pub open spec fn admits(self) -> bool {
        self is Pass || self is FirstProbe || self is Probe
    }

    /// The state in which the circuit is once the decision is made: the
    /// state under which a call that goes through will run.
    pub open spec fn state(self) -> State {
        match self {
            Gate::Pass => State::Closed,
            Gate::FirstProbe => State::HalfOpen,
            Gate::Probe => State::HalfOpen,
            Gate::Cooling => State::Open,
            Gate::Exhausted => State::HalfOpen,
        }
    }

    /// What the observers are told of the decision: of the transition to
    /// half-open, or of a probe that was let through or rejected.
    pub open spec fn notices(self) -> Seq<Notice> {
        match self {
            Gate::Pass => seq![],
            Gate::FirstProbe => seq![
                Notice::Moved { step: Transition { from: State::Open, to: State::HalfOpen } },
            ],
            Gate::Probe => seq![Notice::Probe { admitted: true }],
            Gate::Cooling => seq![],
            Gate::Exhausted => seq![Notice::Probe { admitted: false }],
        }
    }

    /// What the observers are told of the decision.
    pub fn to_notices(self) -> (notices: Vec<Notice>)
        ensures
            notices@ == self.notices(),
    {
        let mut notices: Vec<Notice> = Vec::new();
        match self {
            Gate::Pass => {},
            Gate::FirstProbe => notices.push(
                Notice::Moved { step: Transition { from: State::Open, to: State::HalfOpen } },
            ),
            Gate::Probe => notices.push(Notice::Probe { admitted: true }),
            Gate::Cooling => {},
            Gate::Exhausted => notices.push(Notice::Probe { admitted: false }),
        }
        notices
    }

    /// Whether the call goes through.
    pub fn is_admitted(self) -> (admitted: bool)
        ensures
            admitted == self.admits(),
    {
        match self {
            Gate::Pass => true,
            Gate::FirstProbe => true,
            Gate::Probe => true,
            Gate::Cooling => false,
            Gate::Exhausted => false,
        }
    }

    /// The state in which the circuit is once the decision is made.
    pub fn state_after(self) -> (state: State)
        ensures
            state == self.state(),
    {
        match self {
            Gate::Pass => State::Closed,
            Gate::FirstProbe => State::HalfOpen,
            Gate::Probe => State::HalfOpen,
            Gate::Cooling => State::Open,
            Gate::Exhausted => State::HalfOpen,
        }
    }
}

/// A change of state that took place.
#[derive(Debug, Clone, Copy, PartialEq, Eq, Structural)]
pub struct Transition {
    /// The state that was left.
    pub from: State,
    /// The state that was entered.
    pub to: State,
}

/// Something that a breaker tells its observers.
#[derive(Debug, Clone, Copy, PartialEq, Eq, Structural)]
pub enum Notice {
    /// A call completed after `duration` nanoseconds. It goes to the sink.
    Call { success: bool, duration: u64 },
    /// A call succeeded or failed. It runs the hook for that outcome.
    Outcome { success: bool },
    /// The circuit changed its state. It runs the hook for the state that
    /// was entered and then goes to the sink.
    Moved { step: Transition },
    /// The circuit tripped at this error rate. It goes to the sink.
    ErrorRate { rate: Ratio },
    /// A call arrived at a half-open circuit and was let through as a probe
    /// or was rejected. It goes to the sink.
    Probe { admitted: bool },
}

impl Notice {
    /// The hook that a notice runs, if it runs one.
    pub open spec fn hook_event(self) -> Option<HookEvent> {
        match self {
            Notice::Outcome { success } => Some(HookEvent::of_outcome(success)),
            Notice::Moved { step } => Some(HookEvent::of_transition(step.to)),
            _ => None,
        }
    }

    /// The event that the sink is told of for a notice, if the notice goes to
    /// the sink. A transition goes there by the names of its two states.
    pub open spec fn sink_event(self) -> Option<SinkEvent> {
        match self {
            Notice::Call { success, duration } => Some(SinkEvent::Call { success, duration }),
            Notice::Outcome { success } => None,
            Notice::Moved { step } => Some(
                SinkEvent::Transition {
                    from: step.from.label_text(),
                    to: step.to.label_text(),
                },
            ),
            Notice::ErrorRate { rate } => Some(SinkEvent::ErrorRate { rate }),
            Notice::Probe { admitted } => Some(SinkEvent::Probe { success: admitted }),
        }
    }

    /// Whether the hook that a notice runs, if it runs one and one is
    /// registered, has run to its end.
    pub open spec fn reached<H: Fn()>(self, hooks: HookRegistry<H>) -> bool {
        self.hook_event() matches Some(event) ==> hooks.ran(event)
    }

    /// Whether the sink has been told of a notice, if the notice goes to the
    /// sink.
    pub open spec fn told<M: MetricSink>(self, sink: M) -> bool {
        self.sink_event() matches Some(event) ==> sink.heard(event)
    }

    /// Whether a notice has been brought to the observers: its hook has run
    /// and the sink has been told.
    pub open spec fn brought<M: MetricSink, H: Fn()>(self, sink: M, hooks: HookRegistry<H>)
        -> bool {
        self.reached(hooks) && self.told(sink)
    }

    /// The hook that this notice runs, if it runs one.
    pub fn hook(&self) -> (event: Option<HookEvent>)
        ensures
            event == self.hook_event(),
    {
        match self {
            Notice::Outcome { success } => Some(HookEvent::for_outcome(*success)),
            Notice::Moved { step } => Some(HookEvent::for_transition(step.to)),
            _ => None,
        }
    }

    /// Brings the notice to the observers: runs its hook, if it has one and
    /// one is registered, and then tells the sink, if the notice is for it.
    pub fn deliver<M: MetricSink, H: Fn()>(&self, sink: &M, hooks: &HookRegistry<H>)
        ensures
            self.brought(*sink, *hooks),
    {
        match self.hook() {
            Some(event) => hooks.execute(event),
            None => {},
        }
        match self {
            Notice::Call { success, duration } => sink.record_call(*success, *duration),
            Notice::Outcome { success } => {},
            Notice::Moved { step } => sink.record_state_transition(
                step.from.label(),
                step.to.label(),
            ),
            Notice::ErrorRate { rate } => sink.record_error_rate(*rate),
            Notice::Probe { admitted } => sink.record_probe_attempt(*admitted),
        }
    }
}

/// The notice of a transition, if one took place.
pub open spec fn notices_of_step(step: Option<Transition>) -> Seq<Notice> {
    match step {
        Some(step) => seq![Notice::Moved { step }],
        None => seq![],
    }
}

/// What the observers are told once the outcome of a call is acted upon: of
/// the transition, if one took place, and of the error rate if that
/// transition is the trip that follows a call under a closed circuit.
pub open spec fn notices_of_settling(
    ran_under: State,
    success: bool,
    step: Option<Transition>,
    rate: Ratio,
) -> Seq<Notice> {
    if step is Some && ran_under == State::Closed {
        notices_of_step(step).push(Notice::ErrorRate { rate })
    } else {
        notices_of_step(step)
    }
}

/// What the observers are told of a completed call: that it completed, how
/// it ended, and what acting upon it brought about.
pub open spec fn notices_of_call(
    ran_under: State,
    success: bool,
    duration: u64,
    step: Option<Transition>,
    rate: Ratio,
) -> Seq<Notice> {
    seq![Notice::Call { success, duration }, Notice::Outcome { success }] + notices_of_settling(
        ran_under,
        success,
        step,
        rate,
    )
}

/// The notices of a transition, if one took place.
pub fn step_notices(step: Option<Transition>) -> (notices: Vec<Notice>)
    ensures
        notices@ == notices_of_step(step),
{
    let mut notices: Vec<Notice> = Vec::new();
    match step {
        Some(step) => notices.push(Notice::Moved { step }),
        None => {},
    }
    notices
}

/// What the observers are told once the outcome of a call is acted upon.
/// `rate` is the error rate of the breaker at that time.
pub fn settling_notices(
    ran_under: State,
    success: bool,
    step: Option<Transition>,
    rate: Ratio,
) -> (notices: Vec<Notice>)
    ensures
        notices@ == notices_of_settling(ran_under, success, step, rate),
{
    let mut notices = step_notices(step);
    if step.is_some() && ran_under == State::Closed {
        notices.push(Notice::ErrorRate { rate });
    }
    notices
}

/// What the observers are told of a completed call. `rate` is the error
/// rate of the breaker once the call is recorded.
pub fn call_notices(
    ran_under: State,
    success: bool,
    duration: u64,
    step: Option<Transition>,
    rate: Ratio,
) -> (notices: Vec<Notice>)
    ensures
        notices@ == notices_of_call(ran_under, success, duration, step, rate),
{
    let mut notices: Vec<Notice> = Vec::new();
    notices.push(Notice::Call { success, duration });
    notices.push(Notice::Outcome { success });
    let mut rest = settling_notices(ran_under, success, step, rate);
    notices.append(&mut rest);
    notices
}

/// Whether all these notices have been brought to the observers.
pub open spec fn all_brought<M: MetricSink, H: Fn()>(
    notices: Seq<Notice>,
    sink: M,
    hooks: HookRegistry<H>,
) -> bool {
    forall|i: int| 0 <= i < notices.len() ==> (#[trigger] notices[i]).brought(sink, hooks)
}

/// Brings the notices to the observers, one after the other.
pub fn deliver_all<M: MetricSink, H: Fn()>(
    notices: &Vec<Notice>,
    sink: &M,
    hooks: &HookRegistry<H>,
)
    ensures
        all_brought(notices@, *sink, *hooks),
{
    let mut index: usize = 0;
    while index < notices.len()
        invariant
            index <= notices.len(),
            forall|i: int| 0 <= i < index ==> (#[trigger] notices@[i]).brought(*sink, *hooks),
        decreases notices.len() - index,
    {
        notices[index].deliver(sink, hooks);
        index = index + 1;
    }
}

/// What a breaker holds, with the policy given by its own view.
pub struct BreakerView<PV> {
    /// The state of the circuit and the time at which it was entered.
    pub manager: StateManagerView,
    /// The statistics of the calls since the circuit last closed.
    pub stats: StatsView,
    /// The policy.
    pub policy: PV,
    /// How long the circuit stays open before a probe is let through.
    pub cooldown: u64,
    /// The probes that may still go through while the circuit is half-open.
    pub probes_allowed: u32,
    /// The probes granted each time the circuit becomes half-open.
    pub probe_interval: u32,
    /// The time at which the circuit last became half-open.
    pub last_probe_time: u64,
}

impl<PV> BreakerView<PV> {
    /// Whether the cooldown of an open circuit is over at time `now`.
    pub open spec fn cooled_down(self, now: u64) -> bool {
        self.manager.time_in_state(now) >= self.cooldown
    }

    /// The decision on a call that arrives at time `now`.
    pub open spec fn gate(self, now: u64) -> Gate {
        match self.manager.state {
            State::Closed => Gate::Pass,
            State::Open => if self.cooled_down(now) {
                Gate::FirstProbe
            } else {
                Gate::Cooling
            },
            State::HalfOpen => if self.probes_allowed > 0 {
                Gate::Probe
            } else {
                Gate::Exhausted
            },
        }
    }

    /// The breaker after it has decided on a call that arrives at time `now`.
    /// A first probe makes the circuit half-open and grants the probes of one
    /// interval; any other probe uses one up; nothing else changes.
    pub open spec fn admitted(self, now: u64) -> BreakerView<PV> {
        match self.gate(now) {
            Gate::FirstProbe => BreakerView {
                manager: StateManagerView { state: State::HalfOpen, since: now },
                probes_allowed: self.probe_interval,
                last_probe_time: now,
                ..self
            },
            Gate::Probe => BreakerView {
                probes_allowed: (self.probes_allowed - 1) as u32,
                ..self
            },
            _ => self,
        }
    }

    /// The transition that the outcome of a call brings about, if any. The
    /// call ran under the state `ran_under`; `verdict` is what the policy
    /// says: of a call that ran under a closed circuit, whether the circuit
    /// should trip; of any other, whether it should close again.
    ///
    /// A call that completes under a closed circuit trips it if the policy
    /// says so, whether the call succeeded or failed. A success under a
    /// half-open circuit closes it if the policy agrees. A failure under a
    /// half-open circuit opens it again whatever the policy says. A
    /// transition takes place only from the state that it starts in: where
    /// the circuit has moved on in the meantime, nothing happens.
    pub open spec fn outcome(self, ran_under: State, success: bool, verdict: bool) -> Option<
        Transition,
    > {
        let live = self.manager.state;
        if ran_under == State::Closed {
            if verdict && live != State::Open {
                Some(Transition { from: live, to: State::Open })
            } else {
                None
            }
        } else if ran_under == State::HalfOpen && live == State::HalfOpen {
            if !success {
                Some(Transition { from: State::HalfOpen, to: State::Open })
            } else if verdict {
                Some(Transition { from: State::HalfOpen, to: State::Closed })
            } else {
                None
            }
        } else {
            None
        }
    }

    /// The breaker after the given transition at time `now`: the new state is
    /// entered, and entering the closed state clears the statistics.
    pub open spec fn moved(self, transition: Option<Transition>, now: u64) -> BreakerView<PV> {
        match transition {
            None => self,
            Some(step) => BreakerView {
                manager: StateManagerView { state: step.to, since: now },
                stats: if step.to == State::Closed {
                    StatsView::empty()
                } else {
                    self.stats
                },
                ..self
            },
        }
    }

    /// The breaker after the outcome of a call has been acted upon at time
    /// `now`.
    pub open spec fn decided(self, ran_under: State, success: bool, verdict: bool, now: u64)
        -> BreakerView<PV> {
        self.moved(self.outcome(ran_under, success, verdict), now)
    }

    /// The transition that forcing the circuit open brings about.
    pub open spec fn force_open_step(self) -> Option<Transition> {
        if self.manager.state == State::Open {
            None
        } else {
            Some(Transition { from: self.manager.state, to: State::Open })
        }
    }

    /// The transition that forcing the circuit closed brings about.
    pub open spec fn force_closed_step(self) -> Option<Transition> {
        if self.manager.state == State::Closed {
            None
        } else {
            Some(Transition { from: self.manager.state, to: State::Closed })
        }
    }

    /// The breaker after it was forced open at time `now`.
    pub open spec fn forced_open(self, now: u64) -> BreakerView<PV> {
        self.moved(self.force_open_step(), now)
    }

    /// The breaker after it was forced closed at time `now`.
    pub open spec fn forced_closed(self, now: u64) -> BreakerView<PV> {
        self.moved(self.force_closed_step(), now)
    }
}

/// The breaker after a completed call has gone into the statistics and into
/// the policy.
pub open spec fn recorded<P: BreakerPolicy>(
    breaker: BreakerView<P::V>,
    success: bool,
    now: u64,
) -> BreakerView<P::V> {
    BreakerView {
        stats: breaker.stats.record(success, now),
        policy: P::noted(breaker.policy, success, now),
        ..breaker
    }
}

/// What the policy says at time `now` of a breaker that has recorded a call
/// which ran under the state `ran_under`: if that state is closed, whether
/// the circuit should trip; otherwise, whether it should close again.
pub open spec fn verdict<P: BreakerPolicy>(
    breaker: BreakerView<P::V>,
    ran_under: State,
    now: u64,
) -> bool {
    if ran_under == State::Closed {
        P::trips(breaker.policy, breaker.stats, now)
    } else {
        P::resets(breaker.policy, breaker.stats, now)
    }
}

/// The transition that a completed call brings about: the call is recorded,
/// the policy is asked, and its verdict is acted upon.
pub open spec fn settlement<P: BreakerPolicy>(
    breaker: BreakerView<P::V>,
    ran_under: State,
    success: bool,
    now: u64,
) -> Option<Transition> {
    let noted = recorded::<P>(breaker, success, now);
    noted.outcome(ran_under, success, verdict::<P>(noted, ran_under, now))
}

/// The breaker after a call that ran under the state `ran_under` has
/// completed at time `now`.
pub open spec fn settled<P: BreakerPolicy>(
    breaker: BreakerView<P::V>,
    ran_under: State,
    success: bool,
    now: u64,
) -> BreakerView<P::V> {
    recorded::<P>(breaker, success, now).moved(
        settlement::<P>(breaker, ran_under, success, now),
        now,
    )
}

/// How one call through the breaker relates the breaker before it to the
/// breaker after it. The call arrived at time `start`. If `passed` is
/// `None` it was rejected; otherwise the wrapped function ran, `passed` tells
/// whether it succeeded, and the outcome was settled at time `end`.
pub open spec fn call_leads<P: BreakerPolicy>(
    before: BreakerView<P::V>,
    start: u64,
    end: u64,
    passed: Option<bool>,
    after: BreakerView<P::V>,
) -> bool {
    let gate = before.gate(start);
    match passed {
        None => !gate.admits() && after == before.admitted(start),
        Some(success) => gate.admits() && after == settled::<P>(
            before.admitted(start),
            gate.state(),
            success,
            end,
        ),
    }
}

/// What the observers are told in the course of one call through the
/// breaker, with the times and the outcome as in [`call_leads`]: of the
/// decision on the call and, if the call went through, of the call itself.
pub open spec fn notices_of_whole_call<P: BreakerPolicy>(
    before: BreakerView<P::V>,
    start: u64,
    end: u64,
    passed: Option<bool>,
) -> Seq<Notice> {
    let gate = before.gate(start);
    match passed {
        None => gate.notices(),
        Some(success) => gate.notices() + notices_of_call(
            gate.state(),
            success,
            end.saturating_sub(start),
            settlement::<P>(before.admitted(start), gate.state(), success, end),
            recorded::<P>(before.admitted(start), success, end).stats.error_rate(),
        ),
    }
}

/// Two runs of notices have been brought to the observers if each has.
pub proof fn lemma_all_brought_of_both<M: MetricSink, H: Fn()>(
    first: Seq<Notice>,
    second: Seq<Notice>,
    sink: M,
    hooks: HookRegistry<H>,
)
    requires
        all_brought(first, sink, hooks),
        all_brought(second, sink, hooks),
    ensures
        all_brought(first + second, sink, hooks),
{
    assert forall|i: int| 0 <= i < (first + second).len() implies (#[trigger] (first
        + second)[i]).brought(sink, hooks) by {
        if i < first.len() {
            assert((first + second)[i] == first[i]);
        } else {
            assert((first + second)[i] == second[i - first.len()]);
        }
    }
}

/// A transition only ever starts in the state that the circuit is in, and it
/// leads to another state.
pub proof fn lemma_transitions_start_in_live_state<PV>(
    breaker: BreakerView<PV>,
    ran_under: State,
    success: bool,
    verdict: bool,
)
    ensures
        match breaker.outcome(ran_under, success, verdict) {
            Some(step) => step.from == breaker.manager.state && step.from != step.to,
            None => true,
        },
        match breaker.force_open_step() {
            Some(step) => step.from == breaker.manager.state && step.from != step.to,
            None => true,
        },
        match breaker.force_closed_step() {
            Some(step) => step.from == breaker.manager.state && step.from != step.to,
            None => true,
        },
{
}

/// A call that completes under a closed circuit trips it exactly when the
/// policy says, once the call is recorded, that the circuit should trip; it
/// makes no difference whether the call succeeded or failed.
pub proof fn lemma_closed_call_trips_when_policy_says<P: BreakerPolicy>(
    breaker: BreakerView<P::V>,
    success: bool,
    now: u64,
)
    requires
        breaker.manager.state == State::Closed,
    ensures
        ({
            let noted = recorded::<P>(breaker, success, now);
            let after = settled::<P>(breaker, State::Closed, success, now);
            if P::trips(noted.policy, noted.stats, now) {
                &&& settlement::<P>(breaker, State::Closed, success, now) == Some(
                    Transition { from: State::Closed, to: State::Open },
                )
                &&& after.manager == (StateManagerView { state: State::Open, since: now })
                &&& after.stats == noted.stats
            } else {
                &&& settlement::<P>(breaker, State::Closed, success, now) is None
                &&& after == noted
            }
        }),
{
}

/// With the default policy, the failing call that brings the streak of
/// failures up to its threshold trips a closed circuit within that same
/// call.
pub proof fn lemma_failure_streak_trips(breaker: BreakerView<DefaultPolicyView>, now: u64)
    requires
        breaker.manager.state == State::Closed,
        breaker.stats.record_failure(now).consecutive_failures
            >= breaker.policy.consecutive_failures_threshold,
    ensures
        breaker.gate(now) == Gate::Pass,
        settlement::<DefaultPolicy>(breaker, State::Closed, false, now) == Some(
            Transition { from: State::Closed, to: State::Open },
        ),
        settled::<DefaultPolicy>(breaker, State::Closed, false, now).manager == (StateManagerView {
            state: State::Open,
            since: now,
        }),
{
}

/// While the circuit is open and its cooldown is not over, a call is
/// rejected and changes nothing, whatever the wrapped function would have
/// done.
pub proof fn lemma_open_rejects_until_cooldown<P: BreakerPolicy>(
    breaker: BreakerView<P::V>,
    now: u64,
    end: u64,
    passed: Option<bool>,
    after: BreakerView<P::V>,
)
    requires
        breaker.manager.state == State::Open,
        breaker.manager.time_in_state(now) < breaker.cooldown,
    ensures
        breaker.gate(now) == Gate::Cooling,
        !breaker.gate(now).admits(),
        breaker.admitted(now) == breaker,
        call_leads::<P>(breaker, now, end, passed, after) ==> passed is None && after == breaker,
{
}

/// Once the cooldown of an open circuit is over, the next call makes it
/// half-open and goes through as the first probe, with the probes of one
/// interval granted. No call after it finds the circuit open: each is a
/// probe or is rejected, as the probes left decide.
pub proof fn lemma_cooldown_admits_one_first_probe<PV>(
    breaker: BreakerView<PV>,
    now: u64,
    later: u64,
)
    requires
        breaker.manager.state == State::Open,
        breaker.manager.time_in_state(now) >= breaker.cooldown,
    ensures
        breaker.gate(now) == Gate::FirstProbe,
        breaker.admitted(now).manager == (StateManagerView { state: State::HalfOpen, since: now }),
        breaker.admitted(now).probes_allowed == breaker.probe_interval,
        breaker.admitted(now).last_probe_time == now,
        breaker.admitted(now).gate(later) == if breaker.probe_interval > 0 {
            Gate::Probe
        } else {
            Gate::Exhausted
        },
{
}

/// The breaker after a run of calls has arrived, one at each of the given
/// times, and none of them has completed yet.
pub open spec fn after_arrivals<PV>(breaker: BreakerView<PV>, times: Seq<u64>) -> BreakerView<PV>
    decreases times.len(),
{
    if times.len() == 0 {
        breaker
    } else {
        after_arrivals(breaker, times.drop_last()).admitted(times.last())
    }
}

/// How many calls of such a run go through as the first probe, the one that
/// makes the circuit half-open.
pub open spec fn first_probes<PV>(breaker: BreakerView<PV>, times: Seq<u64>) -> nat
    decreases times.len(),
{
    if times.len() == 0 {
        0
    } else {
        let before = first_probes(breaker, times.drop_last());
        if after_arrivals(breaker, times.drop_last()).gate(times.last()) is FirstProbe {
            before + 1
        } else {
            before
        }
    }
}

/// How many calls of such a run go through.
pub open spec fn arrivals_admitted<PV>(breaker: BreakerView<PV>, times: Seq<u64>) -> nat
    decreases times.len(),
{
    if times.len() == 0 {
        0
    } else {
        let before = arrivals_admitted(breaker, times.drop_last());
        if after_arrivals(breaker, times.drop_last()).gate(times.last()).admits() {
            before + 1
        } else {
            before
        }
    }
}

/// Of any number of calls that arrive at an open circuit whose cooldown is
/// over, taken one after the other before any of them completes, exactly one
/// makes the circuit half-open: the first. Of the others, as many go through
/// as there are probes in one interval, and the rest are rejected. The
/// circuit is half-open afterwards.
pub proof fn lemma_one_arrival_opens_halfway<PV>(breaker: BreakerView<PV>, times: Seq<u64>)
    requires
        breaker.manager.state == State::Open,
        times.len() >= 1,
        breaker.cooled_down(times[0]),
    ensures
        first_probes(breaker, times) == 1,
        arrivals_admitted(breaker, times) == 1 + if times.len() - 1 <= breaker.probe_interval {
            times.len() - 1
        } else {
            breaker.probe_interval as int
        },
        after_arrivals(breaker, times).manager == (StateManagerView {
            state: State::HalfOpen,
            since: times[0],
        }),
        after_arrivals(breaker, times).probes_allowed == breaker.probe_interval
            - (arrivals_admitted(breaker, times) - 1),
    decreases times.len(),
{
    if times.len() == 1 {
        reveal_with_fuel(after_arrivals, 2);
        reveal_with_fuel(first_probes, 2);
        reveal_with_fuel(arrivals_admitted, 2);
    } else {
        lemma_one_arrival_opens_halfway(breaker, times.drop_last());
        assert(times.drop_last()[0] == times[0]);
    }
}

/// A call that fails under a half-open circuit opens the circuit again,
/// whatever the policy and its thresholds.
pub proof fn lemma_half_open_failure_reopens<P: BreakerPolicy>(
    breaker: BreakerView<P::V>,
    now: u64,
)
    requires
        breaker.manager.state == State::HalfOpen,
    ensures
        settlement::<P>(breaker, State::HalfOpen, false, now) == Some(
            Transition { from: State::HalfOpen, to: State::Open },
        ),
        settled::<P>(breaker, State::HalfOpen, false, now).manager == (StateManagerView {
            state: State::Open,
            since: now,
        }),
{
}

/// A call that succeeds under a half-open circuit closes the circuit exactly
/// when the policy says so, and closing clears the statistics, so that the
/// error rate reads zero.
pub proof fn lemma_half_open_success_closes<P: BreakerPolicy>(
    breaker: BreakerView<P::V>,
    now: u64,
)
    requires
        breaker.manager.state == State::HalfOpen,
    ensures
        ({
            let noted = recorded::<P>(breaker, true, now);
            let after = settled::<P>(breaker, State::HalfOpen, true, now);
            if P::resets(noted.policy, noted.stats, now) {
                &&& after.manager == (StateManagerView { state: State::Closed, since: now })
                &&& after.stats == StatsView::empty()
                &&& after.stats.error_rate().is_zero()
            } else {
                after == noted
            }
        }),
{
}

/// With the default policy, the successful call that brings the streak of
/// successes up to its threshold closes a half-open circuit and clears the
/// statistics.
pub proof fn lemma_success_streak_closes(breaker: BreakerView<DefaultPolicyView>, now: u64)
    requires
        breaker.manager.state == State::HalfOpen,
        breaker.stats.record_success(now).consecutive_successes
            >= breaker.policy.consecutive_successes_threshold,
    ensures
        settlement::<DefaultPolicy>(breaker, State::HalfOpen, true, now) == Some(
            Transition { from: State::HalfOpen, to: State::Closed },
        ),
        settled::<DefaultPolicy>(breaker, State::HalfOpen, true, now).manager == (StateManagerView {
            state: State::Closed,
            since: now,
        }),
        settled::<DefaultPolicy>(breaker, State::HalfOpen, true, now).stats == StatsView::empty(),
        settled::<DefaultPolicy>(breaker, State::HalfOpen, true, now).stats.error_rate().is_zero(),
{
}

/// Forcing the circuit open a second time changes nothing and reports no
/// change; and so for forcing it closed.
pub proof fn lemma_forcing_twice_changes_nothing<PV>(
    breaker: BreakerView<PV>,
    first: u64,
    second: u64,
)
    ensures
        breaker.forced_open(first).manager.state == State::Open,
        breaker.forced_open(first).force_open_step() is None,
        breaker.forced_open(first).forced_open(second) == breaker.forced_open(first),
        breaker.forced_closed(first).manager.state == State::Closed,
        breaker.forced_closed(first).force_closed_step() is None,
        breaker.forced_closed(first).forced_closed(second) == breaker.forced_closed(first),
{
}

/// The breaker after one call that arrives at time `now` and, if it is let
/// through, ends at once with the given outcome.
pub open spec fn after_call<P: BreakerPolicy>(
    breaker: BreakerView<P::V>,
    success: bool,
    now: u64,
) -> BreakerView<P::V> {
    let gate = breaker.gate(now);
    if gate.admits() {
        settled::<P>(breaker.admitted(now), gate.state(), success, now)
    } else {
        breaker.admitted(now)
    }
}

/// The breaker after a run of calls with one and the same outcome, one at
/// each of the given times.
pub open spec fn after_calls<P: BreakerPolicy>(
    breaker: BreakerView<P::V>,
    success: bool,
    times: Seq<u64>,
) -> BreakerView<P::V>
    decreases times.len(),
{
    if times.len() == 0 {
        breaker
    } else {
        after_call::<P>(
            after_calls::<P>(breaker, success, times.drop_last()),
            success,
            times.last(),
        )
    }
}

/// Where a run of failing calls leaves a breaker with the default policy
/// that was closed when the run began: tripped, or still closed with every
/// call of the run added to the streak of failures and the streak short of
/// its threshold.
proof fn lemma_failures_trip_or_count(breaker: BreakerView<DefaultPolicyView>, times: Seq<u64>)
    requires
        breaker.manager.state == State::Closed,
        breaker.stats.consecutive_failures < u64::MAX,
    ensures
        ({
            let after = after_calls::<DefaultPolicy>(breaker, false, times);
            &&& after.policy == breaker.policy
            &&& after.manager.state == State::Open || {
                &&& after.manager.state == State::Closed
                &&& after.stats.consecutive_failures == breaker.stats.consecutive_failures
                    + times.len()
                &&& times.len() > 0 ==> after.stats.consecutive_failures
                    < breaker.policy.consecutive_failures_threshold
            }
        }),
    decreases times.len(),
{
    if times.len() > 0 {
        lemma_failures_trip_or_count(breaker, times.drop_last());
    }
}

/// With the default policy, a closed circuit is open after a run of failing
/// calls that is as long as the threshold for the streak of failures, or
/// longer: the call that completes the streak trips the circuit, and the
/// calls after it are rejected or fail as probes and leave it open.
pub proof fn lemma_enough_failures_open_the_circuit(
    breaker: BreakerView<DefaultPolicyView>,
    times: Seq<u64>,
)
    requires
        breaker.manager.state == State::Closed,
        breaker.stats.consecutive_failures < u64::MAX,
        times.len() >= 1,
        times.len() >= breaker.policy.consecutive_failures_threshold,
    ensures
        after_calls::<DefaultPolicy>(breaker, false, times).manager.state == State::Open,
{
    lemma_failures_trip_or_count(breaker, times);
}

/// Where a run of successful calls leaves a breaker with the default policy
/// that was half-open when the run began: closed with no failure on record,
/// or still half-open with every call of the run taken as a probe and added
/// to the streak of successes, and the streak short of its threshold.
proof fn lemma_successes_close_or_count(breaker: BreakerView<DefaultPolicyView>, times: Seq<u64>)
    requires
        breaker.manager.state == State::HalfOpen,
        breaker.stats.consecutive_successes < u64::MAX,
        breaker.probes_allowed >= 1,
        breaker.probes_allowed >= breaker.policy.consecutive_successes_threshold,
        breaker.policy.never_trips_without_failure(),
    ensures
        ({
            let after = after_calls::<DefaultPolicy>(breaker, true, times);
            &&& after.policy == breaker.policy
            &&& (after.manager.state == State::Closed && after.stats.failure_count == 0
                && after.stats.consecutive_failures == 0) || {
                &&& after.manager.state == State::HalfOpen
                &&& after.stats.consecutive_successes == breaker.stats.consecutive_successes
                    + times.len()
                &&& after.probes_allowed == breaker.probes_allowed - times.len()
                &&& times.len() > 0 ==> after.stats.consecutive_successes
                    < breaker.policy.consecutive_successes_threshold
            }
        }),
    decreases times.len(),
{
    if times.len() > 0 {
        lemma_successes_close_or_count(breaker, times.drop_last());
    }
}

/// With the default policy, a half-open circuit is closed after a run of
/// successful calls that is as long as the threshold for the streak of
/// successes, or longer, provided that it has a probe for each call up to
/// the threshold and that the policy wants a failure before it trips.
pub proof fn lemma_enough_successes_close_the_circuit(
    breaker: BreakerView<DefaultPolicyView>,
    times: Seq<u64>,
)
    requires
        breaker.manager.state == State::HalfOpen,
        breaker.stats.consecutive_successes < u64::MAX,
        breaker.probes_allowed >= 1,
        breaker.probes_allowed >= breaker.policy.consecutive_successes_threshold,
        breaker.policy.never_trips_without_failure(),
        times.len() >= 1,
        times.len() >= breaker.policy.consecutive_successes_threshold,
    ensures
        after_calls::<DefaultPolicy>(breaker, true, times).manager.state == State::Closed,
{
    lemma_successes_close_or_count(breaker, times);
}

} // verus!
