//! The three states of a breaker and the record of its last transition.

use vstd::prelude::*;

verus! {

/// The state of a circuit breaker.
#[derive(Debug, Clone, Copy, PartialEq, Eq, Structural)]
pub enum State {
    /// Calls pass through to the protected resource.
    Closed,
    /// Calls are rejected without reaching the resource.
    Open,
    /// A limited number of probing calls are let through to test recovery.
    HalfOpen,
}

impl State {
    /// The machine word that stands for a state: 0, 1 or 2.
    pub open spec fn code(self) -> u8 {
        match self {
            State::Closed => 0,
            State::Open => 1,
            State::HalfOpen => 2,
        }
    }

    /// The state that a machine word stands for. Any word other than 1 and 2
    /// reads as `Closed`.
    pub open spec fn decode(value: u8) -> State {
        if value == 1 {
            State::Open
        } else if value == 2 {
            State::HalfOpen
        } else {
            State::Closed
        }
    }

    /// The name under which a state is reported to observers.
    pub open spec fn label_text(self) -> Seq<char> {
        match self {
            State::Closed => "closed"@,
            State::Open => "open"@,
            State::HalfOpen => "half-open"@,
        }
    }

    /// The word for this state.
    pub fn as_u8(self) -> (value: u8)
        ensures
            value == self.code(),
    {
        match self {
            State::Closed => 0,
            State::Open => 1,
            State::HalfOpen => 2,
        }
    }

    /// The name under which this state is reported to observers.
    pub fn label(self) -> (name: &'static str)
        ensures
            name@ == self.label_text(),
    {
        match self {
            State::Closed => "closed",
            State::Open => "open",
            State::HalfOpen => "half-open",
        }
    }
}

impl From<u8> for State {
    fn from(value: u8) -> (state: State) {
        if value == 1 {
            State::Open
        } else if value == 2 {
            State::HalfOpen
        } else {
            State::Closed
        }
    }
}

impl vstd::std_specs::convert::FromSpecImpl<u8> for State {
    open spec fn obeys_from_spec() -> bool {
        true
    }

    open spec fn from_spec(value: u8) -> State {
        State::decode(value)
    }
}

/// Decoding the word of a state gives the state back.
pub proof fn lemma_decode_code(state: State)
    ensures
        State::decode(state.code()) == state,
{
}

/// What a [`StateManager`] holds: the current state and the time at which it
/// was entered.
pub struct StateManagerView {
    pub state: State,
    pub since: u64,
}

impl StateManagerView {
    /// The time spent in the current state at time `now`. A `now` that lies
    /// before the last transition counts as no time at all.
    pub open spec fn time_in_state(self, now: u64) -> u64 {
        now.saturating_sub(self.since)
    }

    /// Whether an attempt to go from `from` to `to` succeeds: the current
    /// state must be `from`.
    pub open spec fn can_transition(self, from: State) -> bool {
        self.state == from
    }

    /// The manager after an attempt at time `now` to go from `from` to `to`.
    /// A failed attempt changes nothing; a successful one enters `to` and
    /// refreshes the time of the last transition.
    pub open spec fn transition(self, from: State, to: State, now: u64) -> StateManagerView {
        if self.state == from {
            StateManagerView { state: to, since: now }
        } else {
            self
        }
    }

    /// The manager after an attempt at time `now` to open the circuit from
    /// whatever state it is in. An open circuit stays as it is.
    pub open spec fn trip_open(self, now: u64) -> StateManagerView {
        if self.state == State::Open {
            self
        } else {
            StateManagerView { state: State::Open, since: now }
        }
    }
}

/// Holds the current state of a breaker and the time of its last transition.
#[derive(Debug)]
pub struct StateManager {
    state: State,
    last_transition: u64,
}

impl View for StateManager {
    type V = StateManagerView;

    closed spec fn view(&self) -> StateManagerView {
        StateManagerView { state: self.state, since: self.last_transition }
    }
}

impl StateManager {
    /// A manager in the closed state, entered at time `now`.
    pub fn new(now: u64) -> (manager: StateManager)
        ensures
            manager@ == (StateManagerView { state: State::Closed, since: now }),
    {
        StateManager { state: State::Closed, last_transition: now }
    }

    /// The current state.
    pub fn current(&self) -> (state: State)
        ensures
            state == self@.state,
    {
        self.state
    }

    /// The time of the last transition.
    pub fn last_transition_time(&self) -> (since: u64)
        ensures
            since == self@.since,
    {
        self.last_transition
    }

    /// The time spent in the current state at time `now`.
    pub fn time_in_state(&self, now: u64) -> (elapsed: u64)
        ensures
            elapsed == self@.time_in_state(now),
    {
        now.saturating_sub(self.last_transition)
    }

    /// Attempts to go from `from` to `to` at time `now`. Succeeds exactly when
    /// the current state is `from`; otherwise nothing changes.
    pub fn transition_from_to(&mut self, from: State, to: State, now: u64) -> (done: bool)
        ensures
            done == old(self)@.can_transition(from),
            final(self)@ == old(self)@.transition(from, to, now),
    {
        if self.state == from {
            self.state = to;
            self.last_transition = now;
            true
        } else {
            false
        }
    }

    /// Opens the circuit from any state at time `now`. Returns `false` and
    /// changes nothing if it is open already.
    pub fn trip_open(&mut self, now: u64) -> (done: bool)
        ensures
            done == (old(self)@.state != State::Open),
            final(self)@ == old(self)@.trip_open(now),
    {
        let current = self.current();
        if current == State::Open {
            return false;
        }
        self.transition_from_to(current, State::Open, now)
    }

    /// Goes from open to half-open at time `now`, if the circuit is open.
    pub fn attempt_half_open(&mut self, now: u64) -> (done: bool)
        ensures
            done == (old(self)@.state == State::Open),
            final(self)@ == old(self)@.transition(State::Open, State::HalfOpen, now),
    {
        self.transition_from_to(State::Open, State::HalfOpen, now)
    }

    /// Goes from half-open to closed at time `now`, if the circuit is
    /// half-open.
    pub fn reset_closed(&mut self, now: u64) -> (done: bool)
        ensures
            done == (old(self)@.state == State::HalfOpen),
            final(self)@ == old(self)@.transition(State::HalfOpen, State::Closed, now),
    {
        self.transition_from_to(State::HalfOpen, State::Closed, now)
    }

    /// Goes from half-open back to open at time `now`, if the circuit is
    /// half-open.
    pub fn revert_to_open(&mut self, now: u64) -> (done: bool)
        ensures
            done == (old(self)@.state == State::HalfOpen),
            final(self)@ == old(self)@.transition(State::HalfOpen, State::Open, now),
    {
        self.transition_from_to(State::HalfOpen, State::Open, now)
    }
}

/// The manager after a run of attempts to go from open to half-open, one at
/// each of the given times, with nothing else moving the state in between.
pub open spec fn after_half_open_attempts(manager: StateManagerView, times: Seq<u64>)
    -> StateManagerView
    decreases times.len(),
{
    if times.len() == 0 {
        manager
    } else {
        after_half_open_attempts(manager, times.drop_last()).transition(
            State::Open,
            State::HalfOpen,
            times.last(),
        )
    }
}

/// How many attempts of such a run succeed.
pub open spec fn half_open_attempts_won(manager: StateManagerView, times: Seq<u64>) -> nat
    decreases times.len(),
{
    if times.len() == 0 {
        0
    } else {
        let won_before = half_open_attempts_won(manager, times.drop_last());
        if after_half_open_attempts(manager, times.drop_last()).can_transition(State::Open) {
            won_before + 1
        } else {
            won_before
        }
    }
}

/// Of any number of attempts to make an open circuit half-open, taken one
/// after the other, exactly one succeeds: the first. The circuit is
/// half-open afterwards, entered at the time of that attempt.
pub proof fn lemma_one_half_open_attempt_wins(manager: StateManagerView, times: Seq<u64>)
    requires
        manager.state == State::Open,
        times.len() >= 1,
    ensures
        half_open_attempts_won(manager, times) == 1,
        after_half_open_attempts(manager, times) == (StateManagerView {
            state: State::HalfOpen,
            since: times[0],
        }),
    decreases times.len(),
{
    if times.len() == 1 {
        reveal_with_fuel(after_half_open_attempts, 2);
        reveal_with_fuel(half_open_attempts_won, 2);
    } else {
        lemma_one_half_open_attempt_wins(manager, times.drop_last());
        assert(times.drop_last()[0] == times[0]);
    }
}

} // verus!
