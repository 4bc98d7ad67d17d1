//! The errors that a call through a breaker can end in.

use vstd::prelude::*;
use vstd::string::StringExecFns;

verus! {

/// The result of a call through a breaker.
pub type BreakerResult<T, E> = Result<T, BreakerError<E>>;

/// Why a call through a breaker did not return a value.
#[derive(Debug)]
pub enum BreakerError<E> {
    /// The circuit is open, or half-open with no probe left: the wrapped
    /// function was not run.
    Open,
    /// The wrapped function ran and failed with this error.
    Operation(E),
    /// The breaker itself failed.
    Internal(InternalError),
}

/// What can fail inside a breaker.
#[derive(Debug, Clone, Copy, PartialEq, Eq, Structural)]
pub enum InternalError {
    /// A transition between states failed.
    StateTransition,
    /// Tracking of failures failed.
    FailureTracking,
    /// Evaluating the policy failed.
    PolicyEvaluation,
    /// Running a hook failed.
    HookExecution,
}

impl InternalError {
    /// The text that describes each internal error.
    pub open spec fn message_text(self) -> Seq<char> {
        match self {
            InternalError::StateTransition => "Failed to transition between states"@,
            InternalError::FailureTracking => "Error in tracking failures"@,
            InternalError::PolicyEvaluation => "Error in policy evaluation"@,
            InternalError::HookExecution => "Hook execution failed"@,
        }
    }

    /// A description of the error.
    pub fn message(&self) -> (text: String)
        ensures
            text@ == self.message_text(),
    {
        match self {
            InternalError::StateTransition => "Failed to transition between states".to_owned(),
            InternalError::FailureTracking => "Error in tracking failures".to_owned(),
            InternalError::PolicyEvaluation => "Error in policy evaluation".to_owned(),
            InternalError::HookExecution => "Hook execution failed".to_owned(),
        }
    }
}

impl<E> BreakerError<E> {
    /// The text that describes an error, given the text of the wrapped
    /// function's error.
    pub open spec fn message_text(self, operation: Seq<char>) -> Seq<char> {
        match self {
            BreakerError::Open => "Circuit breaker is open"@,
            BreakerError::Operation(_) => "Operation error: "@ + operation,
            BreakerError::Internal(inner) => "Circuit breaker internal error: "@
                + inner.message_text(),
        }
    }

    /// Whether the call was rejected without running the wrapped function.
    pub fn is_open(&self) -> (open: bool)
        ensures
            open == (*self is Open),
    {
        match self {
            BreakerError::Open => true,
            _ => false,
        }
    }

    /// The error of the wrapped function, if that is what the call ended in.
    pub fn source(&self) -> (cause: Option<&E>)
        ensures
            match *self {
                BreakerError::Operation(inner) => cause == Some(&inner),
                _ => cause is None,
            },
    {
        match self {
            BreakerError::Operation(inner) => Some(inner),
            _ => None,
        }
    }

    /// A description of the error. `operation` is the description of the
    /// wrapped function's error, which is used if the call ended in it.
    pub fn message(&self, operation: &str) -> (text: String)
        ensures
            text@ == self.message_text(operation@),
    {
        match self {
            BreakerError::Open => "Circuit breaker is open".to_owned(),
            BreakerError::Operation(_) => "Operation error: ".to_owned().concat(operation),
            BreakerError::Internal(inner) => {
                let detail = inner.message();
                "Circuit breaker internal error: ".to_owned().concat(detail.as_str())
            },
        }
    }
}

} // verus!
