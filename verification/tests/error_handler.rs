use bjr_logic::menu::MenuError;
use bjr_logic::device_traits::MotorEnabler;
use bjr_logic::error_handler::ErrorHandler;
use bjr_logic::event::GlobEvent;
use bjr_logic::event_queue::{dequeue_event, enqueue_event, new_event_queue};
use bjr_logic::severity::{ErrorSeverity, Severity};

#[derive(Debug, Copy, Clone)]
enum TestError {
    Panic,
    ImmediateShutdown,
    GracefulShutdown,
    Report,
    Ignore,
}

impl Severity for TestError {
    fn severity_spec(&self) -> ErrorSeverity {
        self.get_severity()
    }

    fn get_severity(&self) -> ErrorSeverity {
        match self {
            TestError::Panic => ErrorSeverity::Panic,
            TestError::ImmediateShutdown => ErrorSeverity::ImmediateShutdown,
            TestError::GracefulShutdown => ErrorSeverity::GracefulShutdown,
            TestError::Report => ErrorSeverity::Report,
            TestError::Ignore => ErrorSeverity::Ignore,
        }
    }
}

/// Records every call of `set_enable`.
#[derive(Default)]
struct RecordingEnabler {
    calls: Vec<bool>,
}

impl MotorEnabler for RecordingEnabler {
    fn enabled(&self) -> bool {
        self.calls.last() == Some(&true)
    }

    fn set_enable(&mut self, enable: bool) {
        self.calls.push(enable);
    }
}

#[test]
fn test_error_handler_ignore() {
    let mut queue = new_event_queue();
    let mut motor_enabler = RecordingEnabler::default();
    let mut test_error_handler = ErrorHandler::new();
    let reaction = test_error_handler.handle_error(&mut motor_enabler, TestError::Ignore, &mut queue);
    assert!(!reaction.halt);
    assert!(motor_enabler.calls.is_empty());
}

#[test]
fn test_error_handler_report() {
    let mut queue = new_event_queue();
    let mut motor_enabler = RecordingEnabler::default();
    let mut test_error_handler = ErrorHandler::new();
    test_error_handler.handle_error(&mut motor_enabler, TestError::Report, &mut queue);
    assert!(dequeue_event(&mut queue) == None);
}

#[test]
fn test_error_handler_graceful_shutdown() {
    let mut queue = new_event_queue();
    let mut motor_enabler = RecordingEnabler::default();
    let mut test_error_handler = ErrorHandler::new();
    test_error_handler.handle_error(&mut motor_enabler, TestError::GracefulShutdown, &mut queue);
    assert!(dequeue_event(&mut queue) == Some(GlobEvent::ErrorWithGracefulShutdown));
    assert!(dequeue_event(&mut queue) == None);
}

#[test]
fn test_error_handler_immediate_shutdown() {
    let mut queue = new_event_queue();
    let mut motor_enabler = RecordingEnabler::default();
    let mut test_error_handler = ErrorHandler::new();
    test_error_handler.handle_error(&mut motor_enabler, TestError::ImmediateShutdown, &mut queue);
    assert_eq!(motor_enabler.calls, vec![false]);
    assert!(!motor_enabler.enabled());
    assert!(dequeue_event(&mut queue) == Some(GlobEvent::ErrorWithImmediateShutdown));
    assert!(dequeue_event(&mut queue) == None);
}

#[test]
fn error_handler_panic_disables_motors_and_halts() {
    let mut queue = new_event_queue();
    let mut motor_enabler = RecordingEnabler::default();
    let mut handler = ErrorHandler::new();
    let reaction = handler.handle_error(&mut motor_enabler, TestError::Panic, &mut queue);
    assert!(reaction.halt && reaction.motors_disabled);
    assert_eq!(reaction.severity, ErrorSeverity::Panic);
    assert_eq!(motor_enabler.calls, vec![false]);
    assert!(dequeue_event(&mut queue) == None);
}

#[test]
fn error_handler_full_queue_halts() {
    let mut queue = new_event_queue();
    for _ in 0..8 {
        assert!(enqueue_event(&mut queue, GlobEvent::ButtonShortPress) == Ok(()));
    }
    let mut motor_enabler = RecordingEnabler::default();
    let mut handler = ErrorHandler::new();
    let reaction = handler.handle_error(&mut motor_enabler, TestError::GracefulShutdown, &mut queue);
    assert!(reaction.halt && reaction.motors_disabled);
    assert_eq!(reaction.queued, None);
    assert_eq!(motor_enabler.calls, vec![false]);
    let reaction = handler.handle_error(&mut motor_enabler, TestError::ImmediateShutdown, &mut queue);
    assert!(reaction.halt);
    assert_eq!(motor_enabler.calls, vec![false, false]);
}

#[test]
fn error_handler_react_follows_severity() {
    let mut queue = new_event_queue();
    let mut motor_enabler = RecordingEnabler::default();
    let mut handler = ErrorHandler::new();
    let reaction = handler.react(&mut motor_enabler, ErrorSeverity::GracefulShutdown, &mut queue);
    assert_eq!(reaction.queued, Some(GlobEvent::ErrorWithGracefulShutdown));
    assert!(!reaction.motors_disabled && !reaction.halt);
    assert!(motor_enabler.calls.is_empty());
    let reaction = handler.react(&mut motor_enabler, ErrorSeverity::Report, &mut queue);
    assert_eq!(reaction.queued, None);
    assert!(!reaction.motors_disabled && !reaction.halt);
    assert!(dequeue_event(&mut queue) == Some(GlobEvent::ErrorWithGracefulShutdown));
    assert!(dequeue_event(&mut queue) == None);
}

#[test]
fn error_handler_uses_the_library_error_severities() {
    let mut queue = new_event_queue();
    let mut motor_enabler = RecordingEnabler::default();
    let mut handler = ErrorHandler::new();
    let reaction = handler.handle_error(&mut motor_enabler, MenuError::MenuInterfaceWriteError, &mut queue);
    assert_eq!(reaction.severity, ErrorSeverity::Report);
    assert!(!reaction.halt);
    let reaction = handler.handle_error(&mut motor_enabler, MenuError::EventBufferOverflow, &mut queue);
    assert_eq!(reaction.severity, ErrorSeverity::Panic);
    assert!(reaction.halt);
    assert_eq!(motor_enabler.calls, vec![false]);
}
