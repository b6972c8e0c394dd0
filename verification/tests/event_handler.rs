use bjr_logic::event::GlobEvent;
use bjr_logic::event_handler::{event_response, EventHandler, EventHandlerError, EventResponse, State};
use bjr_logic::event_queue::{dequeue_event, drain_event_queue, enqueue_event, new_event_queue};

fn queue_of(events: &[GlobEvent]) -> bjr_logic::event_queue::EventQueue {
    let mut queue = new_event_queue();
    for e in events {
        assert!(enqueue_event(&mut queue, *e) == Ok(()));
    }
    queue
}

#[test]
fn event_handler_starts_off_and_powers_up() {
    let mut handler = EventHandler::new();
    assert_eq!(handler.state(), State::Off);
    let mut queue = queue_of(&[
        GlobEvent::ButtonLongPress,
        GlobEvent::InitFinished,
        GlobEvent::HomingFinished,
    ]);
    assert_eq!(handler.handle_events(&mut queue), Ok(State::RunningCenterHold));
    assert!(dequeue_event(&mut queue) == None);
}

#[test]
fn event_handler_short_presses_cycle_patterns() {
    let mut handler = EventHandler::new();
    let mut queue = queue_of(&[GlobEvent::ButtonLongPress, GlobEvent::HomingFinished]);
    assert_eq!(handler.handle_events(&mut queue), Ok(State::RunningCenterHold));
    let mut queue = queue_of(&[GlobEvent::ButtonShortPress]);
    assert_eq!(handler.handle_events(&mut queue), Ok(State::RunningCircling));
    let mut queue = queue_of(&[GlobEvent::ButtonShortPress]);
    assert_eq!(handler.handle_events(&mut queue), Ok(State::RunningTriangle));
    let mut queue = queue_of(&[GlobEvent::ButtonShortPress]);
    assert_eq!(handler.handle_events(&mut queue), Ok(State::RunningCenterHold));
}

#[test]
fn event_handler_stops_at_unexpected_event() {
    let mut handler = EventHandler::new();
    let mut queue = queue_of(&[
        GlobEvent::ButtonShortPress,
        GlobEvent::InitFinished,
        GlobEvent::ButtonLongPress,
    ]);
    assert_eq!(
        handler.handle_events(&mut queue),
        Err(EventHandlerError::UnexpectedEvent(GlobEvent::InitFinished, State::Off))
    );
    assert_eq!(handler.state(), State::Off);
    // the event after the unexpected one stays queued
    assert!(dequeue_event(&mut queue) == Some(GlobEvent::ButtonLongPress));
    assert!(dequeue_event(&mut queue) == None);
}

#[test]
fn event_handler_error_state_absorbs_everything() {
    let mut handler = EventHandler::new();
    let mut queue = queue_of(&[
        GlobEvent::ErrorWithImmediateShutdown,
        GlobEvent::InitFinished,
        GlobEvent::HomingFinished,
        GlobEvent::ButtonLongPress,
        GlobEvent::ExitFeedforward,
    ]);
    assert_eq!(handler.handle_events(&mut queue), Ok(State::Error));
    assert!(dequeue_event(&mut queue) == None);
}

#[test]
fn event_handler_feedforward_round_trip() {
    assert_eq!(event_response(State::RunningCircling, GlobEvent::EnterFeedforward), EventResponse::NewState(State::FeedForward));
    assert_eq!(event_response(State::FeedForward, GlobEvent::ExitFeedforward), EventResponse::NewState(State::RunningCenterHold));
    assert_eq!(event_response(State::FeedForward, GlobEvent::ButtonShortPress), EventResponse::Ignore);
    assert_eq!(event_response(State::Deinit, GlobEvent::ErrorWithGracefulShutdown), EventResponse::Ignore);
    assert_eq!(event_response(State::Homing, GlobEvent::InitFinished), EventResponse::Unexpected);
    assert_eq!(event_response(State::RunningTriangle, GlobEvent::ButtonLongPress), EventResponse::NewState(State::Deinit));
}

#[test]
fn event_queue_is_fifo_with_capacity_eight() {
    let mut queue = new_event_queue();
    for _ in 0..8 {
        assert!(enqueue_event(&mut queue, GlobEvent::ButtonShortPress) == Ok(()));
    }
    assert!(enqueue_event(&mut queue, GlobEvent::ButtonLongPress) == Err(GlobEvent::ButtonLongPress));
    drain_event_queue(&mut queue);
    assert!(dequeue_event(&mut queue) == None);
    assert!(enqueue_event(&mut queue, GlobEvent::HomingFinished) == Ok(()));
    assert!(enqueue_event(&mut queue, GlobEvent::InitFinished) == Ok(()));
    assert!(dequeue_event(&mut queue) == Some(GlobEvent::HomingFinished));
    assert!(dequeue_event(&mut queue) == Some(GlobEvent::InitFinished));
    assert!(dequeue_event(&mut queue) == None);
}
