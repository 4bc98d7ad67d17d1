//! Where a breaker reports what it does.

use vstd::prelude::*;
use crate::ratio::Ratio;

verus! {

/// An event as a sink is told of it.
pub enum SinkEvent {
    /// The circuit went from the state of one name to the state of another.
    Transition { from: Seq<char>, to: Seq<char> },
    /// The circuit tripped at this error rate.
    ErrorRate { rate: Ratio },
    /// A call arrived while the circuit was half-open and was let through as
    /// a probe or rejected.
    Probe { success: bool },
    /// A call completed after `duration` nanoseconds.
    Call { success: bool, duration: u64 },
}

/// A receiver of the events of a breaker. The breaker calls these methods as
/// the events happen and expects nothing back.
pub trait MetricSink {
    /// Whether the sink has been told of an event. Each method makes it so
    /// for the event that it stands for. A sink that keeps no account of what
    /// it is told leaves this as it is.
    open spec fn heard(&self, event: SinkEvent) -> bool {
        true
    }

    /// The circuit went from one state to another; the states are given by
    /// their names, `closed`, `open` and `half-open`.
    fn record_state_transition(&self, from: &str, to: &str)
        ensures
            self.heard(SinkEvent::Transition { from: from@, to: to@ }),
    ;

    /// The circuit tripped at this error rate.
    fn record_error_rate(&self, rate: Ratio)
        ensures
            self.heard(SinkEvent::ErrorRate { rate }),
    ;

    /// A call arrived while the circuit was half-open and was let through as
    /// a probe (`true`) or rejected for want of a probe (`false`).
    fn record_probe_attempt(&self, success: bool)
        ensures
            self.heard(SinkEvent::Probe { success }),
    ;

    /// A call completed, successfully or not, after `duration` nanoseconds.
    fn record_call(&self, success: bool, duration: u64)
        ensures
            self.heard(SinkEvent::Call { success, duration }),
    ;
}

/// A sink that discards every event.
#[derive(Debug, Clone, Copy)]
pub struct NullMetricSink;

impl MetricSink for NullMetricSink {
    fn record_state_transition(&self, from: &str, to: &str) {
    }

    fn record_error_rate(&self, rate: Ratio) {
    }

    fn record_probe_attempt(&self, success: bool) {
    }

    fn record_call(&self, success: bool, duration: u64) {
    }
}

} // verus!
