use vstd::prelude::*;

verus! {

/// Events exchanged between the handlers through the event queue.
#[derive(Clone, Copy, PartialEq, Eq, Debug, Structural)]
pub enum GlobEvent {
    ButtonShortPress,
    ButtonLongPress,
    ButtonDoublePress,
    ErrorWithGracefulShutdown,
    ErrorWithImmediateShutdown,
    HomingFinished,
    InitFinished,
    EnterFeedforward,
    ExitFeedforward,
}

#[derive(Clone, Copy, PartialEq, Eq, Debug)]
pub enum EventError {
    QueueFull(GlobEvent),
}

} // verus!
