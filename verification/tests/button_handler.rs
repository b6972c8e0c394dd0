use bjr_logic::button_handler::{button_step, ButtonHandler, ButtonHandlerError, ButtonHandlerState};
use bjr_logic::device_traits::Button;
use bjr_logic::event::GlobEvent;
use bjr_logic::event_queue::{dequeue_event, enqueue_event, new_event_queue};
use bjr_logic::parameter_manager::{DoublePressThresholdMs, ParameterManager};
use bjr_logic::severity::{ErrorSeverity, Severity};

/// A button that replays a script of (count, pressed) runs, in order.
struct ScriptedButton {
    script: Vec<(usize, bool)>,
    calls: usize,
}

impl ScriptedButton {
    fn new(script: Vec<(usize, bool)>) -> Self {
        ScriptedButton { script, calls: 0 }
    }
}

impl Button for ScriptedButton {
    fn is_pressed_effect(&self, after: &Self, _pressed: bool) -> bool {
        after.calls == self.calls + 1 && after.script == self.script
    }

    fn is_pressed(&mut self) -> bool {
        let mut n = self.calls;
        self.calls += 1;
        for (count, pressed) in &self.script {
            if n < *count {
                return *pressed;
            }
            n -= *count;
        }
        panic!("button sampled more often than scripted");
    }
}

#[test]
fn test_button_handler_nopress() {
    let run_count = 10u64;
    let call_rate = 1_000u64;
    let params = ParameterManager::new();
    let mut queue = new_event_queue();
    let mut test_button_handler = ButtonHandler::new(ScriptedButton::new(vec![(run_count as usize, false)]));
    for run_num in 1..(run_count + 1) {
        let call_time = call_rate * run_num;
        assert!(test_button_handler.update(call_time, &mut queue, &params) == Ok(()));
    }
    assert!(dequeue_event(&mut queue) == None);
}

#[test]
fn test_button_handler_shortpress() {
    let run_count = 10u64;
    let call_rate = 10_000u64;
    let params = ParameterManager::new();
    let mut queue = new_event_queue();
    let button = ScriptedButton::new(vec![(1, false), (5, true), (4, false)]);
    let mut test_button_handler = ButtonHandler::new(button);
    for run_num in 1..(run_count + 1) {
        let call_time = call_rate * run_num;
        assert!(test_button_handler.update(call_time, &mut queue, &params) == Ok(()));
    }
    assert!(dequeue_event(&mut queue) == Some(GlobEvent::ButtonShortPress));
    assert!(dequeue_event(&mut queue) == None);
}

#[test]
fn test_button_handler_longnshort_press() {
    let run_count = 200u64;
    let call_rate = 10_000u64;
    let params = ParameterManager::new();
    let mut queue = new_event_queue();
    let button = ScriptedButton::new(vec![(101, true), (20, false), (10, true), (69, false)]);
    let mut test_button_handler = ButtonHandler::new(button);
    for run_num in 1..(run_count + 1) {
        let call_time = call_rate * run_num;
        let result = test_button_handler.update(call_time, &mut queue, &params);
        assert!(result == Ok(()));
    }
    assert!(dequeue_event(&mut queue) == Some(GlobEvent::ButtonLongPress));
    assert!(dequeue_event(&mut queue) == Some(GlobEvent::ButtonShortPress));
    assert!(dequeue_event(&mut queue) == None);
}

#[test]
fn button_double_press_is_detected() {
    let mut params = ParameterManager::new();
    params.set::<DoublePressThresholdMs>(300);
    let mut queue = new_event_queue();
    // pressed, released, pressed again within 300 ms, released
    let button = ScriptedButton::new(vec![(1, true), (2, false), (2, true), (1, false)]);
    let mut handler = ButtonHandler::new(button);
    for run_num in 1..7u64 {
        assert!(handler.update(run_num * 50_000, &mut queue, &params) == Ok(()));
    }
    assert!(dequeue_event(&mut queue) == Some(GlobEvent::ButtonDoublePress));
    assert!(dequeue_event(&mut queue) == None);
}

#[test]
fn button_full_queue_reports_lost_event() {
    let params = ParameterManager::new();
    let mut queue = new_event_queue();
    for _ in 0..8 {
        assert!(enqueue_event(&mut queue, GlobEvent::InitFinished) == Ok(()));
    }
    // held for 2 s then released: a long press that finds the queue full
    let button = ScriptedButton::new(vec![(1, true), (1, false)]);
    let mut handler = ButtonHandler::new(button);
    assert!(handler.update(1_000, &mut queue, &params) == Ok(()));
    let result = handler.update(2_001_000, &mut queue, &params);
    assert!(result == Err(ButtonHandlerError::QueueFull(GlobEvent::ButtonLongPress)));
    assert!(ButtonHandlerError::QueueFull(GlobEvent::ButtonLongPress).get_severity() == ErrorSeverity::Panic);
}

#[test]
fn button_step_thresholds_are_strict() {
    // released exactly at the long press threshold: not a long press yet
    let (state, event) = button_step(ButtonHandlerState::FirstDown(0), false, 1_000_000, 1000, 20);
    assert_eq!(state, ButtonHandlerState::FirstUp(1_000_000));
    assert_eq!(event, None);
    // one microsecond later it is
    let (state, event) = button_step(ButtonHandlerState::FirstDown(0), false, 1_000_001, 1000, 20);
    assert_eq!(state, ButtonHandlerState::NoPress);
    assert_eq!(event, Some(GlobEvent::ButtonLongPress));
    // a second press held too long is a long press as well
    let (state, event) = button_step(ButtonHandlerState::SecondDown(5), false, 1_000_006, 1000, 20);
    assert_eq!(state, ButtonHandlerState::NoPress);
    assert_eq!(event, Some(GlobEvent::ButtonLongPress));
    // holding the button produces nothing
    let (state, event) = button_step(ButtonHandlerState::FirstDown(5), true, 9_000_000, 1000, 20);
    assert_eq!(state, ButtonHandlerState::FirstDown(5));
    assert_eq!(event, None);
}
