//! Callbacks for the events of a breaker: at most one per event, which a
//! later one replaces.

use vstd::prelude::*;
use crate::state::State;

verus! {

/// The events that a hook can be registered for.
#[derive(Debug, Clone, Copy, PartialEq, Eq, Structural)]
pub enum HookEvent {
    /// The circuit opened.
    Open,
    /// The circuit closed.
    Close,
    /// The circuit became half-open.
    HalfOpen,
    /// A call succeeded.
    Success,
    /// A call failed.
    Failure,
}

impl HookEvent {
    /// The event of entering the state `to`.
    pub open spec fn of_transition(to: State) -> HookEvent {
        match to {
            State::Open => HookEvent::Open,
            State::Closed => HookEvent::Close,
            State::HalfOpen => HookEvent::HalfOpen,
        }
    }

    /// The event of a call that ended with the given outcome.
    pub open spec fn of_outcome(success: bool) -> HookEvent {
        if success {
            HookEvent::Success
        } else {
            HookEvent::Failure
        }
    }

    /// The event of entering the state `to`.
    pub fn for_transition(to: State) -> (event: HookEvent)
        ensures
            event == HookEvent::of_transition(to),
    {
        match to {
            State::Open => HookEvent::Open,
            State::Closed => HookEvent::Close,
            State::HalfOpen => HookEvent::HalfOpen,
        }
    }

    /// The event of a call that ended with the given outcome.
    pub fn for_outcome(success: bool) -> (event: HookEvent)
        ensures
            event == HookEvent::of_outcome(success),
    {
        if success {
            HookEvent::Success
        } else {
            HookEvent::Failure
        }
    }
}

/// Holds the hooks of a breaker, one slot for each event.
pub struct HookRegistry<H: Fn()> {
    on_open: Option<H>,
    on_close: Option<H>,
    on_half_open: Option<H>,
    on_success: Option<H>,
    on_failure: Option<H>,
}

impl<H: Fn()> HookRegistry<H> {
    /// Every hook in the registry can be called.
    #[verifier::type_invariant]
    spec fn callable(self) -> bool {
        &&& self.on_open matches Some(hook) ==> call_requires(hook, ())
        &&& self.on_close matches Some(hook) ==> call_requires(hook, ())
        &&& self.on_half_open matches Some(hook) ==> call_requires(hook, ())
        &&& self.on_success matches Some(hook) ==> call_requires(hook, ())
        &&& self.on_failure matches Some(hook) ==> call_requires(hook, ())
    }

    /// The hook registered for an event, if there is one.
    pub closed spec fn hook(self, event: HookEvent) -> Option<H> {
        match event {
            HookEvent::Open => self.on_open,
            HookEvent::Close => self.on_close,
            HookEvent::HalfOpen => self.on_half_open,
            HookEvent::Success => self.on_success,
            HookEvent::Failure => self.on_failure,
        }
    }

    /// Whether the hook registered for an event, if there is one, has run to
    /// its end.
    pub open spec fn ran(self, event: HookEvent) -> bool {
        self.hook(event) matches Some(hook) ==> call_ensures(hook, (), ())
    }

    /// The registry with `hook` registered for `event` in place of whatever
    /// was registered for it before.
    pub open spec fn holds_after_set(self, before: Self, event: HookEvent, hook: H) -> bool {
        forall|other: HookEvent| #[trigger]
            self.hook(other) == if other == event {
                Some(hook)
            } else {
                before.hook(other)
            }
    }

    /// A registry with no hook.
    pub fn new() -> (registry: Self)
        ensures
            forall|event: HookEvent| (#[trigger] registry.hook(event)) is None,
    {
        HookRegistry {
            on_open: None,
            on_close: None,
            on_half_open: None,
            on_success: None,
            on_failure: None,
        }
    }

    /// Sets the hook to call when the circuit opens.
    pub fn set_on_open(&mut self, f: H)
        requires
            call_requires(f, ()),
        ensures
            final(self).holds_after_set(*old(self), HookEvent::Open, f),
    {
        proof {
            use_type_invariant(&*self);
        }
        self.on_open = Some(f);
    }

    /// Sets the hook to call when the circuit closes.
    pub fn set_on_close(&mut self, f: H)
        requires
            call_requires(f, ()),
        ensures
            final(self).holds_after_set(*old(self), HookEvent::Close, f),
    {
        proof {
            use_type_invariant(&*self);
        }
        self.on_close = Some(f);
    }

    /// Sets the hook to call when the circuit becomes half-open.
    pub fn set_on_half_open(&mut self, f: H)
        requires
            call_requires(f, ()),
        ensures
            final(self).holds_after_set(*old(self), HookEvent::HalfOpen, f),
    {
        proof {
            use_type_invariant(&*self);
        }
        self.on_half_open = Some(f);
    }

    /// Sets the hook to call when a call succeeds.
    pub fn set_on_success(&mut self, f: H)
        requires
            call_requires(f, ()),
        ensures
            final(self).holds_after_set(*old(self), HookEvent::Success, f),
    {
        proof {
            use_type_invariant(&*self);
        }
        self.on_success = Some(f);
    }

    /// Sets the hook to call when a call fails.
    pub fn set_on_failure(&mut self, f: H)
        requires
            call_requires(f, ()),
        ensures
            final(self).holds_after_set(*old(self), HookEvent::Failure, f),
    {
        proof {
            use_type_invariant(&*self);
        }
        self.on_failure = Some(f);
    }

    /// The hook registered for an event, if there is one. It can be called.
    pub fn hook_for(&self, event: HookEvent) -> (found: Option<&H>)
        ensures
            match found {
                Some(hook) => self.hook(event) == Some(*hook) && call_requires(*hook, ()),
                None => self.hook(event) is None,
            },
    {
        proof {
            use_type_invariant(self);
        }
        let slot = match event {
            HookEvent::Open => &self.on_open,
            HookEvent::Close => &self.on_close,
            HookEvent::HalfOpen => &self.on_half_open,
            HookEvent::Success => &self.on_success,
            HookEvent::Failure => &self.on_failure,
        };
        assert(*slot == self.hook(event));
        match slot {
            Some(hook) => Some(hook),
            None => None,
        }
    }

    /// Calls the hook registered for an event, if there is one.
    pub fn execute(&self, event: HookEvent)
        ensures
            self.ran(event),
    {
        match self.hook_for(event) {
            Some(hook) => hook(),
            None => {},
        }
    }

    /// Calls the hook for entering the state `to`, if there is one.
    pub fn execute_state_transition_hook(&self, to: State)
        ensures
            self.ran(HookEvent::of_transition(to)),
    {
        self.execute(HookEvent::for_transition(to))
    }

    /// Calls the hook for a successful call, if there is one.
    pub fn execute_success_hook(&self)
        ensures
            self.ran(HookEvent::Success),
    {
        self.execute(HookEvent::Success)
    }

    /// Calls the hook for a failed call, if there is one.
    pub fn execute_failure_hook(&self)
        ensures
            self.ran(HookEvent::Failure),
    {
        self.execute(HookEvent::Failure)
    }
}

} // verus!
