use crate::device_traits::MotorEnabler;
use crate::event::GlobEvent;
use crate::event_queue::{enqueue_event, queued_events, EventQueue};
use crate::state_manager::RunnableState;
use crate::state_runner::StateRunnerError;
use vstd::prelude::*;

verus! {

/// The runner of states without work of their own.
pub struct DefaultStateRunner {}

impl DefaultStateRunner {
    pub fn new() -> (r: Self) {
        DefaultStateRunner {}
    }
}

/// Entering and leaving do nothing; every update succeeds and changes
/// nothing.
impl<CTX, E> RunnableState<CTX, E> for DefaultStateRunner {
    open spec fn entry_effect(&self, after: &Self, ctx: CTX, ctx_after: CTX) -> bool {
        ctx_after == ctx
    }

    fn entry(&mut self, _ctx: &mut CTX) {
    }

    open spec fn update_effect(&self, after: &Self, ctx: CTX, ctx_after: CTX, r: Result<(), StateRunnerError<E>>) -> bool {
        r is Ok && ctx_after == ctx
    }

    fn update(&mut self, _ctx: &mut CTX) -> Result<(), StateRunnerError<E>> {
        Ok(())
    }

    open spec fn exit_effect(&self, after: &Self, ctx: CTX, ctx_after: CTX) -> bool {
        ctx_after == ctx
    }

    fn exit(&mut self, _ctx: &mut CTX) {
    }
}

/// The runner of the `Initializing` state: it reports at once that the
/// initialisation is finished.
pub struct InitializingStateRunner {}

impl InitializingStateRunner {
    pub fn new() -> (r: Self) {
        InitializingStateRunner {}
    }

    /// Queues `InitFinished`; a full queue is reported as `QueueFull`.
    pub fn update<E>(&mut self, queue: &mut EventQueue) -> (r: Result<(), StateRunnerError<E>>)
        ensures
            queued_events(*old(queue)).len() < 8 ==> r == Ok::<(), StateRunnerError<E>>(()) && queued_events(*final(queue))
                == queued_events(*old(queue)).push(GlobEvent::InitFinished),
            queued_events(*old(queue)).len() >= 8 ==> r == Err::<(), StateRunnerError<E>>(
                StateRunnerError::QueueFull(GlobEvent::InitFinished),
            ) && queued_events(*final(queue)) == queued_events(*old(queue)),
    {
        match enqueue_event(queue, GlobEvent::InitFinished) {
            Ok(()) => Ok(()),
            Err(e) => Err(StateRunnerError::QueueFull(e)),
        }
    }
}

/// Progress of the runner that waits for a ball.
#[derive(Clone, Copy, PartialEq, Eq, Debug, Structural)]
pub enum NoBallState {
    Default,
    MovingToPosition,
    PositionReached,
    HasBall,
}

/// The runner that waits for a ball on the plate.
pub struct NoBallStateRunner {
    state: NoBallState,
}

impl NoBallStateRunner {
    pub closed spec fn state_spec(&self) -> NoBallState {
        self.state
    }

    pub fn new() -> (r: Self)
        ensures
            r.state_spec() == NoBallState::Default,
    {
        NoBallStateRunner { state: NoBallState::Default }
    }

    /// Entering the state starts over.
    pub fn entry(&mut self)
        ensures
            final(self).state_spec() == NoBallState::Default,
    {
        self.state = NoBallState::Default;
    }
}

/// The runner that drives the motors to their safe position before the power
/// is switched off.
pub struct ShutdownStateRunner {
    finished: bool,
    started: bool,
}

impl ShutdownStateRunner {
    pub closed spec fn started_spec(&self) -> bool {
        self.started
    }

    pub closed spec fn finished_spec(&self) -> bool {
        self.finished
    }

    pub fn new() -> (r: Self)
        ensures
            !r.started_spec() && !r.finished_spec(),
    {
        ShutdownStateRunner { finished: false, started: false }
    }

    /// Entering the state switches the motors on and starts over.
    pub fn entry<ME: MotorEnabler>(&mut self, motor_enabler: &mut ME)
        ensures
            !final(self).started_spec() && !final(self).finished_spec(),
            final(motor_enabler).enabled(),
    {
        motor_enabler.set_enable(true);
        self.started = false;
        self.finished = false;
    }
}

} // verus!
