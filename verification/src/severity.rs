use vstd::prelude::*;

verus! {

/// How the error handler reacts to an error.
#[derive(Clone, Copy, PartialEq, Eq, Debug, Structural)]
pub enum ErrorSeverity {
    Panic,
    ImmediateShutdown,
    GracefulShutdown,
    Report,
    Ignore,
}

/// Errors that carry a severity.
pub trait Severity {
    /// The severity that the error reports.
    spec fn severity_spec(&self) -> ErrorSeverity;

    fn get_severity(&self) -> (r: ErrorSeverity)
        ensures
            r == self.severity_spec(),
    ;
}

} // verus!
