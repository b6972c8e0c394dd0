use crate::event::GlobEvent;
use crate::severity::{ErrorSeverity, Severity};
use crate::trim::TrimmerError;
use vstd::prelude::*;

verus! {

/// Errors of the state runners; `E` is the error type of the motor and sensor
/// input/output.
#[derive(Clone, Copy, PartialEq, Eq, Debug)]
pub enum StateRunnerError<E> {
    HomingIOError(E),
    HomingOverrun,
    HomingLimistSWStuckAtSafePos,
    HomingUnexpectedStopGoingToSafePos,
    HomingInErrorState,
    QueueFull(GlobEvent),
    IOError(E),
    TrimmingError(TrimmerError),
}

/// The severity of each state runner error: queue overflow panics, trimming
/// errors are reported, everything else shuts the machine down at once.
pub open spec fn state_runner_severity_spec<E>(e: StateRunnerError<E>) -> ErrorSeverity {
    match e {
        StateRunnerError::QueueFull(_) => ErrorSeverity::Panic,
        StateRunnerError::TrimmingError(_) => ErrorSeverity::Report,
        _ => ErrorSeverity::ImmediateShutdown,
    }
}

impl<E> Severity for StateRunnerError<E> {
    open spec fn severity_spec(&self) -> ErrorSeverity {
        state_runner_severity_spec(*self)
    }

    fn get_severity(&self) -> (r: ErrorSeverity) {
        match self {
            StateRunnerError::HomingIOError(_) => ErrorSeverity::ImmediateShutdown,
            StateRunnerError::HomingOverrun => ErrorSeverity::ImmediateShutdown,
            StateRunnerError::HomingLimistSWStuckAtSafePos => ErrorSeverity::ImmediateShutdown,
            StateRunnerError::HomingUnexpectedStopGoingToSafePos => ErrorSeverity::ImmediateShutdown,
            StateRunnerError::HomingInErrorState => ErrorSeverity::ImmediateShutdown,
            StateRunnerError::QueueFull(_) => ErrorSeverity::Panic,
            StateRunnerError::IOError(_) => ErrorSeverity::ImmediateShutdown,
            StateRunnerError::TrimmingError(_) => ErrorSeverity::Report,
        }
    }
}

} // verus!
