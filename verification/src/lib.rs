//! A circuit breaker: a guard around calls to an unreliable resource that
//! tracks their outcomes and moves between letting calls through, rejecting
//! them, and probing for recovery.
//!
//! Every type here is a plain value that is changed through `&mut self`.
//! Time is counted in nanoseconds on the breaker's own clock. The operations
//! that decide take the time as an argument, so that what they do is a
//! function of their arguments alone; [`CircuitBreaker::call`] and the two
//! manual overrides read the clock themselves. Sharing one breaker between
//! threads is left to the caller, who puts it behind a lock of their choice
//! and drives it with [`CircuitBreaker::pre_call`] and
//! [`CircuitBreaker::post_call`].

pub mod breaker;
pub mod buckets;
pub mod clock;
pub mod config;
pub mod error;
pub mod hook;
pub mod metrics;
pub mod policy;
pub mod prelude;
pub mod protocol;
pub mod ratio;
pub mod state;
pub mod stats;
pub mod window;

pub use breaker::CircuitBreaker;
pub use clock::Clock;
pub use config::{BreakerBuilder, BuilderView};
pub use error::{BreakerError, BreakerResult, InternalError};
pub use hook::{HookEvent, HookRegistry};
pub use metrics::{MetricSink, NullMetricSink};
pub use policy::{
    BreakerPolicy, DefaultPolicy, DefaultPolicyView, TimeBasedPolicy, TimeBasedPolicyView,
};
pub use protocol::{BreakerView, Gate, Notice, Transition};
pub use ratio::Ratio;
pub use state::{State, StateManager, StateManagerView};
pub use stats::{BreakerStats, StatsView};
pub use window::{FixedWindow, WindowView};
