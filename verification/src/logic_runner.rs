use crate::event_handler::EventHandlerError;
use crate::severity::{ErrorSeverity, Severity};
use vstd::prelude::*;

verus! {

/// Errors of the main cycle; `T` is the telemetry error.
#[derive(Clone, Copy, PartialEq, Eq, Debug)]
pub enum LogicRunnerError<T> {
    /// The cycle started after the time at which it should have ended.
    TimeOverrun,
    EventHandlerError(EventHandlerError),
    TelementryError(T),
}

impl<T> Severity for LogicRunnerError<T> {
    /// An overrun shuts down at once, a state machine error is fatal and a
    /// telemetry error is only reported.
    open spec fn severity_spec(&self) -> ErrorSeverity {
        match *self {
            LogicRunnerError::TimeOverrun => ErrorSeverity::ImmediateShutdown,
            LogicRunnerError::EventHandlerError(_) => ErrorSeverity::Panic,
            LogicRunnerError::TelementryError(_) => ErrorSeverity::Report,
        }
    }

    fn get_severity(&self) -> (r: ErrorSeverity) {
        match self {
            LogicRunnerError::TimeOverrun => ErrorSeverity::ImmediateShutdown,
            LogicRunnerError::EventHandlerError(_) => ErrorSeverity::Panic,
            LogicRunnerError::TelementryError(_) => ErrorSeverity::Report,
        }
    }
}

/// The start of one cycle: when the next cycle is due and whether this one
/// started too late.
#[derive(Clone, Copy, PartialEq, Eq, Debug, Structural)]
pub struct CycleStart {
    pub next_call_time: u64,
    pub overrun: bool,
}

/// The time the next cycle is due: one period after the previous due time,
/// or one period after `call_time` for the first cycle.
pub open spec fn next_due_spec(previous_due: Option<u64>, call_time: u64, period_us: u32) -> int {
    match previous_due {
        Some(t) => t + period_us,
        None => call_time + period_us,
    }
}

/// Keeps the cycle schedule of the logic runner (microseconds).
pub struct CycleClock {
    next_call_time: Option<u64>,
}

impl CycleClock {
    /// The time the current cycle is due to end, once a cycle has started.
    pub closed spec fn due_spec(&self) -> Option<u64> {
        self.next_call_time
    }

    pub fn new() -> (r: Self)
        ensures
            r.due_spec() is None,
    {
        CycleClock { next_call_time: None }
    }

    /// The time the current cycle is due to end, once a cycle has started.
    pub fn due(&self) -> (r: Option<u64>)
        ensures
            r == self.due_spec(),
    {
        self.next_call_time
    }

    /// Starts a cycle at `call_time` with the period `period_us`
    /// (`LogicRunnerPeriodUs`): the next cycle is due one period after the
    /// previous due time, so late cycles do not shift the schedule; the cycle
    /// overruns when it starts after that time.
    pub fn begin_cycle(&mut self, call_time: u64, period_us: u32) -> (r: CycleStart)
        requires
            next_due_spec(old(self).due_spec(), call_time, period_us) <= u64::MAX,
        ensures
            r.next_call_time == next_due_spec(old(self).due_spec(), call_time, period_us),
            r.overrun == (r.next_call_time < call_time),
            final(self).due_spec() == Some(r.next_call_time),
    {
        let period = period_us as u64;
        let next_call_time = match self.next_call_time {
            Some(last) => last + period,
            None => call_time + period,
        };
        self.next_call_time = Some(next_call_time);
        CycleStart { next_call_time, overrun: next_call_time < call_time }
    }
}

/// The due time after a sequence of cycles started at `calls`.
pub open spec fn due_after(start: Option<u64>, calls: Seq<u64>, period_us: u32) -> Option<int>
    decreases calls.len(),
{
    if calls.len() == 0 {
        match start {
            Some(t) => Some(t as int),
            None => None,
        }
    } else {
        let previous = due_after(start, calls.drop_last(), period_us);
        match previous {
            Some(t) => Some(t + period_us),
            None => Some(calls.last() + period_us),
        }
    }
}

/// The schedule does not drift: after the first cycle, the due time moves
/// by exactly one period per cycle, whenever the cycles actually start.
pub proof fn lemma_schedule_does_not_drift(calls: Seq<u64>, period_us: u32)
    requires
        calls.len() > 0,
    ensures
        due_after(None, calls, period_us) == Some(calls[0] + calls.len() * period_us),
    decreases calls.len(),
{
    let n: int = calls.len() as int;
    let p: int = period_us as int;
    if n > 1 {
        lemma_schedule_does_not_drift(calls.drop_last(), period_us);
        assert(calls.drop_last()[0] == calls[0]);
        assert((n - 1) * p + p == n * p) by (nonlinear_arith);
        assert(due_after(None, calls.drop_last(), period_us) == Some(calls[0] + (n - 1) * p));
    } else {
        assert(calls.drop_last().len() == 0);
        assert(n * p == p) by (nonlinear_arith)
            requires
                n == 1,
        ;
        assert(due_after(None, calls.drop_last(), period_us) == None::<int>);
    }
}

} // verus!
