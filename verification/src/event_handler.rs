use crate::event::GlobEvent;
use crate::event_queue::{dequeue_event, queued_events, EventQueue};
use vstd::prelude::*;

verus! {

/// Operating states of the robot.
#[derive(Clone, Copy, PartialEq, Eq, Debug, Structural)]
pub enum State {
    Initializing,
    Homing,
    RunningCenterHold,
    RunningCircling,
    RunningTriangle,
    FeedForward,
    Deinit,
    Error,
    Off,
}

#[derive(Clone, Copy, PartialEq, Eq, Debug, Structural)]
pub enum EventHandlerError {
    /// The event arrived in a state where it must never occur.
    UnexpectedEvent(GlobEvent, State),
}

/// How a state reacts to an event.
#[derive(Clone, Copy, PartialEq, Eq, Debug, Structural)]
pub enum EventResponse {
    Ignore,
    Unexpected,
    NewState(State),
}

/// The transition table of the state machine.
pub open spec fn response_spec(state: State, event: GlobEvent) -> EventResponse {
    match state {
        State::Initializing => match event {
            GlobEvent::ErrorWithGracefulShutdown => EventResponse::NewState(State::Deinit),
            GlobEvent::ErrorWithImmediateShutdown => EventResponse::NewState(State::Error),
            GlobEvent::HomingFinished => EventResponse::NewState(State::RunningCenterHold),
            GlobEvent::InitFinished => EventResponse::NewState(State::Homing),
            _ => EventResponse::Ignore,
        },
        State::Homing => match event {
            GlobEvent::ErrorWithGracefulShutdown => EventResponse::NewState(State::Deinit),
            GlobEvent::ErrorWithImmediateShutdown => EventResponse::NewState(State::Error),
            GlobEvent::HomingFinished => EventResponse::NewState(State::RunningCenterHold),
            GlobEvent::InitFinished => EventResponse::Unexpected,
            _ => EventResponse::Ignore,
        },
        State::RunningCenterHold => match event {
            GlobEvent::ButtonShortPress => EventResponse::NewState(State::RunningCircling),
            GlobEvent::ButtonLongPress => EventResponse::NewState(State::Deinit),
            GlobEvent::ErrorWithGracefulShutdown => EventResponse::NewState(State::Deinit),
            GlobEvent::ErrorWithImmediateShutdown => EventResponse::NewState(State::Error),
            GlobEvent::HomingFinished => EventResponse::Unexpected,
            GlobEvent::InitFinished => EventResponse::Unexpected,
            GlobEvent::EnterFeedforward => EventResponse::NewState(State::FeedForward),
            _ => EventResponse::Ignore,
        },
        State::RunningCircling => match event {
            GlobEvent::ButtonShortPress => EventResponse::NewState(State::RunningTriangle),
            GlobEvent::ButtonLongPress => EventResponse::NewState(State::Deinit),
            GlobEvent::ErrorWithGracefulShutdown => EventResponse::NewState(State::Deinit),
            GlobEvent::ErrorWithImmediateShutdown => EventResponse::NewState(State::Error),
            GlobEvent::HomingFinished => EventResponse::Unexpected,
            GlobEvent::InitFinished => EventResponse::Unexpected,
            GlobEvent::EnterFeedforward => EventResponse::NewState(State::FeedForward),
            _ => EventResponse::Ignore,
        },
        State::RunningTriangle => match event {
            GlobEvent::ButtonShortPress => EventResponse::NewState(State::RunningCenterHold),
            GlobEvent::ButtonLongPress => EventResponse::NewState(State::Deinit),
            GlobEvent::ErrorWithGracefulShutdown => EventResponse::NewState(State::Deinit),
            GlobEvent::ErrorWithImmediateShutdown => EventResponse::NewState(State::Error),
            GlobEvent::HomingFinished => EventResponse::Unexpected,
            GlobEvent::InitFinished => EventResponse::Unexpected,
            GlobEvent::EnterFeedforward => EventResponse::NewState(State::FeedForward),
            _ => EventResponse::Ignore,
        },
        State::Deinit => match event {
            GlobEvent::ErrorWithImmediateShutdown => EventResponse::NewState(State::Error),
            GlobEvent::HomingFinished => EventResponse::Unexpected,
            GlobEvent::InitFinished => EventResponse::Unexpected,
            _ => EventResponse::Ignore,
        },
        State::Off => match event {
            GlobEvent::ButtonLongPress => EventResponse::NewState(State::Initializing),
            GlobEvent::ErrorWithImmediateShutdown => EventResponse::NewState(State::Error),
            GlobEvent::HomingFinished => EventResponse::NewState(State::RunningCenterHold),
            GlobEvent::InitFinished => EventResponse::Unexpected,
            _ => EventResponse::Ignore,
        },
        State::Error => EventResponse::Ignore,
        State::FeedForward => match event {
            GlobEvent::ButtonLongPress => EventResponse::NewState(State::Deinit),
            GlobEvent::ErrorWithGracefulShutdown => EventResponse::NewState(State::Deinit),
            GlobEvent::ErrorWithImmediateShutdown => EventResponse::NewState(State::Error),
            GlobEvent::HomingFinished => EventResponse::Unexpected,
            GlobEvent::InitFinished => EventResponse::Unexpected,
            GlobEvent::EnterFeedforward => EventResponse::NewState(State::FeedForward),
            GlobEvent::ExitFeedforward => EventResponse::NewState(State::RunningCenterHold),
            _ => EventResponse::Ignore,
        },
    }
}

/// Looks up how `state` reacts to `event`.
pub fn event_response(state: State, event: GlobEvent) -> (r: EventResponse)
    ensures
        r == response_spec(state, event),
{
    match state {
        State::Initializing => match event {
            GlobEvent::ButtonShortPress => EventResponse::Ignore,
            GlobEvent::ButtonLongPress => EventResponse::Ignore,
            GlobEvent::ButtonDoublePress => EventResponse::Ignore,
            GlobEvent::ErrorWithGracefulShutdown => EventResponse::NewState(State::Deinit),
            GlobEvent::ErrorWithImmediateShutdown => EventResponse::NewState(State::Error),
            GlobEvent::HomingFinished => EventResponse::NewState(State::RunningCenterHold),
            GlobEvent::InitFinished => EventResponse::NewState(State::Homing),
            GlobEvent::EnterFeedforward => EventResponse::Ignore,
            GlobEvent::ExitFeedforward => EventResponse::Ignore,
        },
        State::Homing => match event {
            GlobEvent::ButtonShortPress => EventResponse::Ignore,
            GlobEvent::ButtonLongPress => EventResponse::Ignore,
            GlobEvent::ButtonDoublePress => EventResponse::Ignore,
            GlobEvent::ErrorWithGracefulShutdown => EventResponse::NewState(State::Deinit),
            GlobEvent::ErrorWithImmediateShutdown => EventResponse::NewState(State::Error),
            GlobEvent::HomingFinished => EventResponse::NewState(State::RunningCenterHold),
            GlobEvent::InitFinished => EventResponse::Unexpected,
            GlobEvent::EnterFeedforward => EventResponse::Ignore,
            GlobEvent::ExitFeedforward => EventResponse::Ignore,
        },
        State::RunningCenterHold => match event {
            GlobEvent::ButtonShortPress => EventResponse::NewState(State::RunningCircling),
            GlobEvent::ButtonLongPress => EventResponse::NewState(State::Deinit),
            GlobEvent::ButtonDoublePress => EventResponse::Ignore,
            GlobEvent::ErrorWithGracefulShutdown => EventResponse::NewState(State::Deinit),
            GlobEvent::ErrorWithImmediateShutdown => EventResponse::NewState(State::Error),
            GlobEvent::HomingFinished => EventResponse::Unexpected,
            GlobEvent::InitFinished => EventResponse::Unexpected,
            GlobEvent::EnterFeedforward => EventResponse::NewState(State::FeedForward),
            GlobEvent::ExitFeedforward => EventResponse::Ignore,
        },
        State::RunningCircling => match event {
            GlobEvent::ButtonShortPress => EventResponse::NewState(State::RunningTriangle),
            GlobEvent::ButtonLongPress => EventResponse::NewState(State::Deinit),
            GlobEvent::ButtonDoublePress => EventResponse::Ignore,
            GlobEvent::ErrorWithGracefulShutdown => EventResponse::NewState(State::Deinit),
            GlobEvent::ErrorWithImmediateShutdown => EventResponse::NewState(State::Error),
            GlobEvent::HomingFinished => EventResponse::Unexpected,
            GlobEvent::InitFinished => EventResponse::Unexpected,
            GlobEvent::EnterFeedforward => EventResponse::NewState(State::FeedForward),
            GlobEvent::ExitFeedforward => EventResponse::Ignore,
        },
        State::RunningTriangle => match event {
            GlobEvent::ButtonShortPress => EventResponse::NewState(State::RunningCenterHold),
            GlobEvent::ButtonLongPress => EventResponse::NewState(State::Deinit),
            GlobEvent::ButtonDoublePress => EventResponse::Ignore,
            GlobEvent::ErrorWithGracefulShutdown => EventResponse::NewState(State::Deinit),
            GlobEvent::ErrorWithImmediateShutdown => EventResponse::NewState(State::Error),
            GlobEvent::HomingFinished => EventResponse::Unexpected,
            GlobEvent::InitFinished => EventResponse::Unexpected,
            GlobEvent::EnterFeedforward => EventResponse::NewState(State::FeedForward),
            GlobEvent::ExitFeedforward => EventResponse::Ignore,
        },
        State::Deinit => match event {
            GlobEvent::ButtonShortPress => EventResponse::Ignore,
            GlobEvent::ButtonLongPress => EventResponse::Ignore,
            GlobEvent::ButtonDoublePress => EventResponse::Ignore,
            GlobEvent::ErrorWithGracefulShutdown => EventResponse::Ignore,
            GlobEvent::ErrorWithImmediateShutdown => EventResponse::NewState(State::Error),
            GlobEvent::HomingFinished => EventResponse::Unexpected,
            GlobEvent::InitFinished => EventResponse::Unexpected,
            GlobEvent::EnterFeedforward => EventResponse::Ignore,
            GlobEvent::ExitFeedforward => EventResponse::Ignore,
        },
        State::Off => match event {
            GlobEvent::ButtonShortPress => EventResponse::Ignore,
            GlobEvent::ButtonLongPress => EventResponse::NewState(State::Initializing),
            GlobEvent::ButtonDoublePress => EventResponse::Ignore,
            GlobEvent::ErrorWithGracefulShutdown => EventResponse::Ignore,
            GlobEvent::ErrorWithImmediateShutdown => EventResponse::NewState(State::Error),
            GlobEvent::HomingFinished => EventResponse::NewState(State::RunningCenterHold),
            GlobEvent::InitFinished => EventResponse::Unexpected,
            GlobEvent::EnterFeedforward => EventResponse::Ignore,
            GlobEvent::ExitFeedforward => EventResponse::Ignore,
        },
        State::Error => EventResponse::Ignore,
        State::FeedForward => match event {
            GlobEvent::ButtonShortPress => EventResponse::Ignore,
            GlobEvent::ButtonLongPress => EventResponse::NewState(State::Deinit),
            GlobEvent::ButtonDoublePress => EventResponse::Ignore,
            GlobEvent::ErrorWithGracefulShutdown => EventResponse::NewState(State::Deinit),
            GlobEvent::ErrorWithImmediateShutdown => EventResponse::NewState(State::Error),
            GlobEvent::HomingFinished => EventResponse::Unexpected,
            GlobEvent::InitFinished => EventResponse::Unexpected,
            GlobEvent::EnterFeedforward => EventResponse::NewState(State::FeedForward),
            GlobEvent::ExitFeedforward => EventResponse::NewState(State::RunningCenterHold),
        },
    }
}

/// Outcome of handling a sequence of events from `state`: the state reached,
/// the error that stopped the handling (if any) and how many events were taken
/// from the front of the sequence.
pub struct HandleOutcome {
    pub state: State,
    pub error: Option<EventHandlerError>,
    pub consumed: nat,
}

/// Handles `events` in order from `state`: ignored events leave the state as it
/// is, a new state replaces it, and the first unexpected event stops the
/// handling (that event is consumed, the following ones are not).
pub open spec fn handle_spec(state: State, events: Seq<GlobEvent>) -> HandleOutcome
    decreases events.len(),
{
    if events.len() == 0 {
        HandleOutcome { state, error: None, consumed: 0 }
    } else {
        match response_spec(state, events[0]) {
            EventResponse::Unexpected => HandleOutcome {
                state,
                error: Some(EventHandlerError::UnexpectedEvent(events[0], state)),
                consumed: 1,
            },
            EventResponse::Ignore => {
                let rest = handle_spec(state, events.drop_first());
                HandleOutcome { state: rest.state, error: rest.error, consumed: rest.consumed + 1 }
            },
            EventResponse::NewState(next) => {
                let rest = handle_spec(next, events.drop_first());
                HandleOutcome { state: rest.state, error: rest.error, consumed: rest.consumed + 1 }
            },
        }
    }
}

/// Handling never takes more events than are queued, and stops early only on
/// an error.
pub proof fn lemma_handle_consumes_within(state: State, events: Seq<GlobEvent>)
    ensures
        handle_spec(state, events).consumed <= events.len(),
        handle_spec(state, events).error is None ==> handle_spec(state, events).consumed
            == events.len(),
    decreases events.len(),
{
    if events.len() > 0 {
        match response_spec(state, events[0]) {
            EventResponse::Unexpected => {},
            EventResponse::Ignore => lemma_handle_consumes_within(state, events.drop_first()),
            EventResponse::NewState(next) => lemma_handle_consumes_within(next, events.drop_first()),
        }
    }
}

/// Handling stops at the first unexpected event: when it reports
/// `UnexpectedEvent(e, s)`, the events before `e` are handled without error
/// and lead to `s`, `e` is the last event taken, `s` treats `e` as unexpected,
/// and the state stays `s`.
pub proof fn lemma_error_is_first_unexpected(state: State, events: Seq<GlobEvent>)
    ensures
        match handle_spec(state, events).error {
            Some(EventHandlerError::UnexpectedEvent(e, s)) => {
                let out = handle_spec(state, events);
                let before = handle_spec(state, events.take(out.consumed - 1));
                &&& 1 <= out.consumed <= events.len()
                &&& events[out.consumed - 1] == e
                &&& response_spec(s, e) == EventResponse::Unexpected
                &&& out.state == s
                &&& before.error is None
                &&& before.state == s
            },
            None => handle_spec(state, events).consumed == events.len(),
        },
    decreases events.len(),
{
    lemma_handle_consumes_within(state, events);
    if events.len() > 0 {
        let rest = events.drop_first();
        match response_spec(state, events[0]) {
            EventResponse::Unexpected => {
                assert(events.take(0) =~= Seq::<GlobEvent>::empty());
            },
            EventResponse::Ignore => {
                lemma_error_is_first_unexpected(state, rest);
                lemma_handle_consumes_within(state, rest);
                let out = handle_spec(state, events);
                if out.error is Some {
                    let n = out.consumed - 1;
                    let prefix = events.take(n);
                    assert(prefix.len() > 0);
                    assert(prefix[0] == events[0]);
                    assert(prefix.drop_first() =~= rest.take(n - 1));
                }
            },
            EventResponse::NewState(next) => {
                lemma_error_is_first_unexpected(next, rest);
                lemma_handle_consumes_within(next, rest);
                let out = handle_spec(state, events);
                if out.error is Some {
                    let n = out.consumed - 1;
                    let prefix = events.take(n);
                    assert(prefix.len() > 0);
                    assert(prefix[0] == events[0]);
                    assert(prefix.drop_first() =~= rest.take(n - 1));
                }
            },
        }
    }
}

/// The `Error` state is absorbing: every event is ignored there, so handling
/// any sequence of events from `Error` stays in `Error`, reports no error and
/// takes every event.
pub proof fn lemma_error_state_is_absorbing(events: Seq<GlobEvent>)
    ensures
        handle_spec(State::Error, events).state == State::Error,
        handle_spec(State::Error, events).error is None,
        handle_spec(State::Error, events).consumed == events.len(),
    decreases events.len(),
{
    if events.len() > 0 {
        lemma_error_state_is_absorbing(events.drop_first());
    }
}

/// An immediate-shutdown event that gets handled always ends in the `Error`
/// state, and no event after it can make the handling fail.
pub proof fn lemma_immediate_shutdown_ends_in_error(state: State, events: Seq<GlobEvent>, i: int)
    requires
        0 <= i < handle_spec(state, events).consumed,
        events[i] == GlobEvent::ErrorWithImmediateShutdown,
    ensures
        handle_spec(state, events).state == State::Error,
        handle_spec(state, events).error is None,
        handle_spec(state, events).consumed == events.len(),
    decreases events.len(),
{
    lemma_handle_consumes_within(state, events);
    if i == 0 {
        match response_spec(state, events[0]) {
            EventResponse::Ignore => {
                assert(state == State::Error);
                lemma_error_state_is_absorbing(events.drop_first());
            },
            EventResponse::NewState(next) => {
                assert(next == State::Error);
                lemma_error_state_is_absorbing(events.drop_first());
            },
            EventResponse::Unexpected => {},
        }
    } else {
        match response_spec(state, events[0]) {
            EventResponse::Ignore => {
                lemma_immediate_shutdown_ends_in_error(state, events.drop_first(), i - 1);
            },
            EventResponse::NewState(next) => {
                lemma_immediate_shutdown_ends_in_error(next, events.drop_first(), i - 1);
            },
            EventResponse::Unexpected => {},
        }
    }
}

/// The ball patterns cycle on short presses: center hold, circling, triangle
/// and back, so three short presses return to the pattern one started from.
pub proof fn lemma_short_presses_cycle_patterns(state: State)
    requires
        state == State::RunningCenterHold || state == State::RunningCircling || state
            == State::RunningTriangle,
    ensures
        handle_spec(
            state,
            seq![GlobEvent::ButtonShortPress, GlobEvent::ButtonShortPress, GlobEvent::ButtonShortPress],
        ).state == state,
        handle_spec(
            state,
            seq![GlobEvent::ButtonShortPress, GlobEvent::ButtonShortPress, GlobEvent::ButtonShortPress],
        ).error is None,
{
    let e = GlobEvent::ButtonShortPress;
    let s3 = seq![e, e, e];
    assert(s3.drop_first() =~= seq![e, e]);
    assert(seq![e, e].drop_first() =~= seq![e]);
    assert(seq![e].drop_first() =~= Seq::<GlobEvent>::empty());
    reveal_with_fuel(handle_spec, 4);
}

/// A long press stops every running pattern and feedforward mode: they all
/// go to `Deinit`.
pub proof fn lemma_long_press_deinits_running_states(state: State)
    requires
        state == State::RunningCenterHold || state == State::RunningCircling || state
            == State::RunningTriangle || state == State::FeedForward,
    ensures
        response_spec(state, GlobEvent::ButtonLongPress) == EventResponse::NewState(State::Deinit),
{
}

/// Every running ball pattern enters feedforward mode on `EnterFeedforward`,
/// and feedforward mode returns to center hold on `ExitFeedforward`.
pub proof fn lemma_feedforward_entry_and_exit(state: State)
    requires
        state == State::RunningCenterHold || state == State::RunningCircling || state
            == State::RunningTriangle,
    ensures
        response_spec(state, GlobEvent::EnterFeedforward) == EventResponse::NewState(State::FeedForward),
        response_spec(state, GlobEvent::ExitFeedforward) == EventResponse::Ignore,
        response_spec(State::FeedForward, GlobEvent::ExitFeedforward) == EventResponse::NewState(
            State::RunningCenterHold,
        ),
        response_spec(State::FeedForward, GlobEvent::EnterFeedforward) == EventResponse::NewState(
            State::FeedForward,
        ),
{
}

/// An immediate shutdown sends every state to `Error`.
pub proof fn lemma_immediate_shutdown_goes_to_error(state: State)
    requires
        state != State::Error,
    ensures
        response_spec(state, GlobEvent::ErrorWithImmediateShutdown) == EventResponse::NewState(State::Error),
{
}

/// A graceful shutdown sends every working state (starting up, homing, the
/// patterns and feedforward mode) to `Deinit`.
pub proof fn lemma_graceful_shutdown_deinits(state: State)
    requires
        state != State::Error && state != State::Off && state != State::Deinit,
    ensures
        response_spec(state, GlobEvent::ErrorWithGracefulShutdown) == EventResponse::NewState(State::Deinit),
{
}

/// The power-up path: a long press starts the robot from `Off`, the end of
/// initialisation starts homing, and the end of homing starts the center hold
/// pattern.
pub proof fn lemma_power_up_path()
    ensures
        response_spec(State::Off, GlobEvent::ButtonLongPress) == EventResponse::NewState(State::Initializing),
        response_spec(State::Initializing, GlobEvent::InitFinished) == EventResponse::NewState(State::Homing),
        response_spec(State::Homing, GlobEvent::HomingFinished) == EventResponse::NewState(
            State::RunningCenterHold,
        ),
{
}

/// Start-up events are out of place once the robot runs: `InitFinished`
/// outside `Initializing`, and `HomingFinished` in a running pattern,
/// feedforward mode or `Deinit`, are unexpected (the `Error` state ignores
/// everything).
pub proof fn lemma_startup_events_unexpected_later(state: State)
    ensures
        state != State::Initializing && state != State::Error ==> response_spec(state, GlobEvent::InitFinished)
            == EventResponse::Unexpected,
        (state == State::RunningCenterHold || state == State::RunningCircling || state
            == State::RunningTriangle || state == State::FeedForward || state == State::Deinit)
            ==> response_spec(state, GlobEvent::HomingFinished) == EventResponse::Unexpected,
{
}

/// Button presses never make the handling fail, and a double press changes
/// nothing in any state.
pub proof fn lemma_button_events_never_unexpected(state: State)
    ensures
        response_spec(state, GlobEvent::ButtonShortPress) != EventResponse::Unexpected,
        response_spec(state, GlobEvent::ButtonLongPress) != EventResponse::Unexpected,
        response_spec(state, GlobEvent::ButtonDoublePress) == EventResponse::Ignore,
{
}

/// Short presses only move between the ball patterns; outside them they are
/// ignored.
pub proof fn lemma_short_press_only_cycles_patterns(state: State)
    requires
        state != State::RunningCenterHold && state != State::RunningCircling && state
            != State::RunningTriangle,
    ensures
        response_spec(state, GlobEvent::ButtonShortPress) == EventResponse::Ignore,
{
}

/// Dispatches queued events to the state machine.
pub struct EventHandler {
    state: State,
}

impl EventHandler {
    /// The current state.
    pub closed spec fn state_spec(&self) -> State {
        self.state
    }

    /// A handler in the `Off` state.
    pub fn new() -> (r: Self)
        ensures
            r.state_spec() == State::Off,
    {
        EventHandler { state: State::Off }
    }

    /// The current state.
    pub fn state(&self) -> (r: State)
        ensures
            r == self.state_spec(),
    {
        self.state
    }

    /// Takes events from the queue and applies the transition table until the
    /// queue is empty (the reached state is returned) or an unexpected event is
    /// met (the error is returned and the remaining events stay queued).
    pub fn handle_events(&mut self, queue: &mut EventQueue) -> (r: Result<State, EventHandlerError>)
        ensures
            ({
                let out = handle_spec(old(self).state_spec(), queued_events(*old(queue)));
                &&& final(self).state_spec() == out.state
                &&& queued_events(*final(queue)) == queued_events(*old(queue)).skip(out.consumed as int)
                &&& r == match out.error {
                    None => Ok(out.state),
                    Some(e) => Err(e),
                }
            }),
    {
        let ghost start_state = self.state;
        let mut state = self.state;
        let ghost start_events = queued_events(*queue);
        let ghost mut taken: nat = 0;
        loop
            invariant
                start_state == old(self).state_spec(),
                start_events == queued_events(*old(queue)),
                ({
                    let out0 = handle_spec(start_state, start_events);
                    let out = handle_spec(state, queued_events(*queue));
                    &&& out0.state == out.state
                    &&& out0.error == out.error
                    &&& out0.consumed == out.consumed + taken
                    &&& queued_events(*queue) == start_events.skip(taken as int)
                    &&& taken <= start_events.len()
                }),
            decreases queued_events(*queue).len(),
        {
            let ghost before = queued_events(*queue);
            let next = dequeue_event(queue);
            match next {
                None => {
                    proof {
                        let out = handle_spec(state, queued_events(*queue));
                        assert(out.consumed == 0 && out.error is None && out.state == state);
                        assert(start_events.skip(taken as int) =~= queued_events(*queue));
                    }
                    self.state = state;
                    return Ok(state);
                },
                Some(event) => {
                    proof {
                        assert(start_events.skip((taken + 1) as int) =~= before.drop_first());
                        taken = taken + 1;
                    }
                    match event_response(state, event) {
                        EventResponse::Ignore => {},
                        EventResponse::Unexpected => {
                            proof {
                                let out = handle_spec(state, before);
                                assert(out.consumed == 1);
                                assert(out.state == state);
                            }
                            self.state = state;
                            return Err(EventHandlerError::UnexpectedEvent(event, state));
                        },
                        EventResponse::NewState(new_state) => {
                            state = new_state;
                        },
                    }
                },
            }
        }
    }
}

} // verus!
