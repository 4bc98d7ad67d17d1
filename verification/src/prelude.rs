//! The names that most users of a breaker need, for a single `use`.

pub use crate::breaker::CircuitBreaker;
pub use crate::config::BreakerBuilder;
pub use crate::error::{BreakerError, BreakerResult};
pub use crate::hook::HookRegistry;
pub use crate::metrics::{MetricSink, NullMetricSink};
pub use crate::policy::{BreakerPolicy, DefaultPolicy, TimeBasedPolicy};
pub use crate::protocol::{Gate, Transition};
pub use crate::ratio::Ratio;
pub use crate::state::State;
