use crate::event::GlobEvent;
use crate::event_queue::{enqueue_event, queued_events, EventQueue};
use crate::motor::MOTOR_NUM;
use crate::severity::{ErrorSeverity, Severity};
use vstd::prelude::*;

verus! {

/// Size of the buffer the menu reads its input into.
pub const READ_BUF_LEN: usize = 64;

#[derive(Clone, Copy, PartialEq, Eq, Debug, Structural)]
pub enum MenuError {
    EventBufferOverflow,
    MenuInterfaceWriteError,
}

impl Severity for MenuError {
    /// A lost menu event is fatal, a console write error is only reported.
    open spec fn severity_spec(&self) -> ErrorSeverity {
        match *self {
            MenuError::EventBufferOverflow => ErrorSeverity::Panic,
            MenuError::MenuInterfaceWriteError => ErrorSeverity::Report,
        }
    }

    fn get_severity(&self) -> (r: ErrorSeverity) {
        match self {
            MenuError::EventBufferOverflow => ErrorSeverity::Panic,
            MenuError::MenuInterfaceWriteError => ErrorSeverity::Report,
        }
    }
}

/// The byte handed to the menu for an input byte: a line feed ends the
/// command like a carriage return.
pub fn menu_input_byte(byte: u8) -> (r: u8)
    ensures
        r == if byte == 10u8 { 13u8 } else { byte },
{
    if byte == 10u8 {
        13u8
    } else {
        byte
    }
}

/// The motor a test motion command may address: any number up to the motor
/// count is accepted, larger numbers are refused.
pub fn motor_test_target(motor_id: usize) -> (r: Option<usize>)
    ensures
        r == if motor_id > MOTOR_NUM { None::<usize> } else { Some(motor_id) },
{
    if motor_id > MOTOR_NUM {
        None
    } else {
        Some(motor_id)
    }
}

/// Queues an event for a menu command; a full queue is reported as
/// `EventBufferOverflow`.
pub fn menu_send_event(queue: &mut EventQueue, event: GlobEvent) -> (r: Result<(), MenuError>)
    ensures
        queued_events(*old(queue)).len() < 8 ==> r == Ok::<(), MenuError>(()) && queued_events(
            *final(queue),
        ) == queued_events(*old(queue)).push(event),
        queued_events(*old(queue)).len() >= 8 ==> r == Err::<(), MenuError>(
            MenuError::EventBufferOverflow,
        ) && queued_events(*final(queue)) == queued_events(*old(queue)),
{
    match enqueue_event(queue, event) {
        Ok(()) => Ok(()),
        Err(_) => Err(MenuError::EventBufferOverflow),
    }
}

} // verus!
