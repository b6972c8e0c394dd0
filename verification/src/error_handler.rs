use crate::device_traits::MotorEnabler;
use crate::event::GlobEvent;
use crate::event_handler::{handle_spec, lemma_handle_consumes_within, lemma_immediate_shutdown_ends_in_error, State};
use crate::event_queue::{enqueue_event, queued_events, EventQueue};
use crate::severity::{ErrorSeverity, Severity};
use vstd::prelude::*;

verus! {

/// What the error handler did about an error.
#[derive(Clone, Copy, PartialEq, Eq, Debug, Structural)]
pub struct ErrorReaction {
    /// The severity the error reported.
    pub severity: ErrorSeverity,
    /// The motors were switched off (the enabler was set to off).
    pub motors_disabled: bool,
    /// The shutdown event that was queued.
    pub queued: Option<GlobEvent>,
    /// The program must stop now (the motors are already off).
    pub halt: bool,
}

/// The reaction to an error of `severity` when the event queue holds
/// `queued_len` events: a panic-level error switches the motors off and halts;
/// an immediate shutdown switches the motors off and queues
/// `ErrorWithImmediateShutdown`; a graceful shutdown queues
/// `ErrorWithGracefulShutdown`; when that event finds the queue full the
/// motors are switched off and the program halts; reported and ignored errors
/// change nothing.
pub open spec fn reaction_spec(severity: ErrorSeverity, queued_len: nat) -> ErrorReaction {
    match severity {
        ErrorSeverity::Panic => ErrorReaction { severity, motors_disabled: true, queued: None, halt: true },
        ErrorSeverity::ImmediateShutdown => if queued_len < 8 {
            ErrorReaction {
                severity,
                motors_disabled: true,
                queued: Some(GlobEvent::ErrorWithImmediateShutdown),
                halt: false,
            }
        } else {
            ErrorReaction { severity, motors_disabled: true, queued: None, halt: true }
        },
        ErrorSeverity::GracefulShutdown => if queued_len < 8 {
            ErrorReaction {
                severity,
                motors_disabled: false,
                queued: Some(GlobEvent::ErrorWithGracefulShutdown),
                halt: false,
            }
        } else {
            ErrorReaction { severity, motors_disabled: true, queued: None, halt: true }
        },
        _ => ErrorReaction { severity, motors_disabled: false, queued: None, halt: false },
    }
}

/// Reacts to errors according to their severity.
pub struct ErrorHandler {}

impl ErrorHandler {
    pub fn new() -> (r: Self) {
        ErrorHandler {}
    }

    /// Handles `error`: reacts as `react` does to the severity that the
    /// error reports.
    pub fn handle_error<ERR: Severity, ME: MotorEnabler>(
        &mut self,
        motor_enabler: &mut ME,
        error: ERR,
        queue: &mut EventQueue,
    ) -> (r: ErrorReaction)
        ensures
            r == reaction_spec(error.severity_spec(), queued_events(*old(queue)).len()),
            queued_events(*final(queue)) == match r.queued {
                None => queued_events(*old(queue)),
                Some(event) => queued_events(*old(queue)).push(event),
            },
            r.motors_disabled ==> !final(motor_enabler).enabled(),
            !r.motors_disabled ==> *final(motor_enabler) == *old(motor_enabler),
    {
        let severity = error.get_severity();
        self.react(motor_enabler, severity, queue)
    }

    /// Reacts to an error of `severity`: switches the motors off, queues a
    /// shutdown event or asks the caller to halt, as `reaction_spec` says.
    pub fn react<ME: MotorEnabler>(
        &mut self,
        motor_enabler: &mut ME,
        severity: ErrorSeverity,
        queue: &mut EventQueue,
    ) -> (r: ErrorReaction)
        ensures
            r == reaction_spec(severity, queued_events(*old(queue)).len()),
            queued_events(*final(queue)) == match r.queued {
                None => queued_events(*old(queue)),
                Some(event) => queued_events(*old(queue)).push(event),
            },
            r.motors_disabled ==> !final(motor_enabler).enabled(),
            !r.motors_disabled ==> *final(motor_enabler) == *old(motor_enabler),
    {
        let mut reaction = ErrorReaction { severity, motors_disabled: false, queued: None, halt: false };
        match severity {
            ErrorSeverity::Panic => {
                motor_enabler.set_enable(false);
                reaction.motors_disabled = true;
                reaction.halt = true;
            },
            ErrorSeverity::ImmediateShutdown => {
                motor_enabler.set_enable(false);
                reaction.motors_disabled = true;
                let event = GlobEvent::ErrorWithImmediateShutdown;
                if enqueue_event(queue, event).is_err() {
                    reaction.halt = true;
                } else {
                    reaction.queued = Some(event);
                }
            },
            ErrorSeverity::GracefulShutdown => {
                let event = GlobEvent::ErrorWithGracefulShutdown;
                if enqueue_event(queue, event).is_err() {
                    motor_enabler.set_enable(false);
                    reaction.motors_disabled = true;
                    reaction.halt = true;
                } else {
                    reaction.queued = Some(event);
                }
            },
            _ => {},
        }
        reaction
    }
}

/// A shutdown that finds room in the queue queues its own event and lets the
/// program go on: an immediate shutdown also switches the motors off, a
/// graceful one leaves them on. Only a full queue makes a shutdown halt, and
/// then with the motors off and nothing queued.
pub proof fn lemma_shutdown_with_room_goes_on(queued_len: nat)
    ensures
        queued_len < 8 ==> reaction_spec(ErrorSeverity::ImmediateShutdown, queued_len) == (ErrorReaction {
            severity: ErrorSeverity::ImmediateShutdown,
            motors_disabled: true,
            queued: Some(GlobEvent::ErrorWithImmediateShutdown),
            halt: false,
        }),
        queued_len < 8 ==> reaction_spec(ErrorSeverity::GracefulShutdown, queued_len) == (ErrorReaction {
            severity: ErrorSeverity::GracefulShutdown,
            motors_disabled: false,
            queued: Some(GlobEvent::ErrorWithGracefulShutdown),
            halt: false,
        }),
        queued_len >= 8 ==> reaction_spec(ErrorSeverity::ImmediateShutdown, queued_len).halt
            && reaction_spec(ErrorSeverity::ImmediateShutdown, queued_len).motors_disabled
            && reaction_spec(ErrorSeverity::ImmediateShutdown, queued_len).queued is None,
        queued_len >= 8 ==> reaction_spec(ErrorSeverity::GracefulShutdown, queued_len).halt
            && reaction_spec(ErrorSeverity::GracefulShutdown, queued_len).motors_disabled
            && reaction_spec(ErrorSeverity::GracefulShutdown, queued_len).queued is None,
{
}

/// A panic-level error always switches the motors off and halts, queueing
/// nothing; every reaction reports the severity it was given, and a halt
/// happens only for a panic or a full queue.
pub proof fn lemma_halt_only_on_panic_or_full_queue(severity: ErrorSeverity, queued_len: nat)
    ensures
        reaction_spec(severity, queued_len).severity == severity,
        severity == ErrorSeverity::Panic ==> reaction_spec(severity, queued_len).halt && reaction_spec(
            severity,
            queued_len,
        ).motors_disabled && reaction_spec(severity, queued_len).queued is None,
        reaction_spec(severity, queued_len).halt ==> severity == ErrorSeverity::Panic || queued_len >= 8,
{
}

/// A shutdown request never gets lost silently: an immediate or graceful
/// shutdown either queues its shutdown event or halts the program, and a
/// halt always comes with the motors switched off.
pub proof fn lemma_shutdown_is_queued_or_halts(severity: ErrorSeverity, queued_len: nat)
    requires
        severity == ErrorSeverity::ImmediateShutdown || severity == ErrorSeverity::GracefulShutdown,
    ensures
        reaction_spec(severity, queued_len).queued is Some || reaction_spec(severity, queued_len).halt,
        reaction_spec(severity, queued_len).halt ==> reaction_spec(severity, queued_len).motors_disabled,
{
}

/// Reported and ignored errors never switch the motors off, queue an event
/// or halt the program.
pub proof fn lemma_minor_errors_change_nothing(severity: ErrorSeverity, queued_len: nat)
    requires
        severity == ErrorSeverity::Report || severity == ErrorSeverity::Ignore,
    ensures
        !reaction_spec(severity, queued_len).motors_disabled,
        reaction_spec(severity, queued_len).queued is None,
        !reaction_spec(severity, queued_len).halt,
{
}

/// An immediate shutdown error reaches the state machine: once the queue it
/// was put on is handled without an unexpected event, the robot is in the
/// `Error` state, whatever state it was in and whatever was queued before.
pub proof fn lemma_immediate_shutdown_reaches_error_state(state: State, queued: Seq<GlobEvent>)
    requires
        queued.len() < 8,
        handle_spec(
            state,
            queued.push(reaction_spec(ErrorSeverity::ImmediateShutdown, queued.len()).queued->Some_0),
        ).error is None,
    ensures
        reaction_spec(ErrorSeverity::ImmediateShutdown, queued.len()).queued == Some(
            GlobEvent::ErrorWithImmediateShutdown,
        ),
        handle_spec(state, queued.push(GlobEvent::ErrorWithImmediateShutdown)).state == State::Error,
{
    let events = queued.push(GlobEvent::ErrorWithImmediateShutdown);
    lemma_handle_consumes_within(state, events);
    lemma_immediate_shutdown_ends_in_error(state, events, queued.len() as int);
}

} // verus!
