//! The failures that can occur while constructing or running a circuit
//! breaker command.

use vstd::prelude::*;

verus! {

/// This error type describes the possible failures that can occur while
/// attempting to construct or run a circuit breaker command.
#[derive(Copy, Clone, Debug, PartialEq, Eq, Structural)]
pub enum CriusError {
    /// Returned in case of an open breaker.
    ExecutionRejected,

    /// Returned in case of invalid configuration (parameters that cause
    /// duration calculations to overflow).
    InvalidConfig,
}

impl CriusError {
    /// A human-readable description of the failure.
    pub fn description(&self) -> (m: &'static str)
        ensures
            self is ExecutionRejected ==> m@ == "Rejected command execution due to open breaker"@,
            self is InvalidConfig ==> m@ == "Provided circuit breaker configuration was invalid"@,
    {
        match *self {
            CriusError::ExecutionRejected => "Rejected command execution due to open breaker",
            CriusError::InvalidConfig => "Provided circuit breaker configuration was invalid",
        }
    }
}

/// The bare marker for a command run that was rejected because the circuit
/// is open.
#[derive(Clone, Debug)]
pub struct RejectError;

} // verus!
