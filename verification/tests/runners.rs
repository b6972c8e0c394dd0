use bjr_logic::device_traits::StepperMotorController;
use bjr_logic::device_traits::{TelemetrySender, TelemetrySenderError};
use bjr_logic::event::GlobEvent;
use bjr_logic::event_handler::State;
use bjr_logic::event_queue::{dequeue_event, enqueue_event, new_event_queue};
use bjr_logic::logic_runner::{CycleClock, LogicRunnerError};
use bjr_logic::menu::{menu_input_byte, menu_send_event, motor_test_target, MenuError};
use bjr_logic::severity::{ErrorSeverity, Severity};
use bjr_logic::state_manager::{
    runner_for_state, switch_plan, RunnableState, RunnerKind, StateManager, StateRunnerSelector, SwitchPlan,
};
use bjr_logic::state_runner::StateRunnerError;
use bjr_logic::state_runners::{DefaultStateRunner, InitializingStateRunner};
use bjr_logic::telemetry::{motor_state_kinds, motor_target_kinds, TelemetryHandler, TelemetryKind, TELEMETRY_COUNT};

/// A runner that logs its calls into the context.
struct LoggingRunner {
    name: State,
}

fn logged(ctx: &Vec<String>, ctx_after: &Vec<String>, line: String) -> bool {
    let mut expected = ctx.clone();
    expected.push(line);
    *ctx_after == expected
}

impl RunnableState<Vec<String>, ()> for LoggingRunner {
    fn entry_effect(&self, _after: &Self, ctx: Vec<String>, ctx_after: Vec<String>) -> bool {
        logged(&ctx, &ctx_after, format!("entry {:?}", self.name))
    }

    fn update_effect(&self, _after: &Self, ctx: Vec<String>, ctx_after: Vec<String>, r: Result<(), StateRunnerError<()>>) -> bool {
        r.is_ok() && logged(&ctx, &ctx_after, format!("update {:?}", self.name))
    }

    fn exit_effect(&self, _after: &Self, ctx: Vec<String>, ctx_after: Vec<String>) -> bool {
        logged(&ctx, &ctx_after, format!("exit {:?}", self.name))
    }

    fn entry(&mut self, ctx: &mut Vec<String>) {
        ctx.push(format!("entry {:?}", self.name));
    }

    fn update(&mut self, ctx: &mut Vec<String>) -> Result<(), StateRunnerError<()>> {
        ctx.push(format!("update {:?}", self.name));
        Ok(())
    }

    fn exit(&mut self, ctx: &mut Vec<String>) {
        ctx.push(format!("exit {:?}", self.name));
    }
}

struct Selector {
    runner: LoggingRunner,
}

impl StateRunnerSelector<Vec<String>, ()> for Selector {
    type Runner = LoggingRunner;

    fn get_runner_effect(&self, _after: &Self, state: State, runner: LoggingRunner, _runner_after: LoggingRunner) -> bool {
        runner.name == state
    }

    fn get_runner(&mut self, state: State) -> &mut LoggingRunner {
        self.runner.name = state;
        &mut self.runner
    }
}

#[test]
fn state_manager_switches_runners_on_state_change() {
    let mut manager = StateManager::new(Selector { runner: LoggingRunner { name: State::Off } });
    assert_eq!(manager.current_state(), State::Initializing);
    let mut log: Vec<String> = vec![];
    assert_eq!(manager.update(State::Initializing, &mut log), Ok(()));
    assert_eq!(log, vec!["update Initializing".to_string()]);
    log.clear();
    assert_eq!(manager.update(State::Homing, &mut log), Ok(()));
    assert_eq!(log, vec!["exit Initializing".to_string(), "entry Homing".to_string(), "update Homing".to_string()]);
    assert_eq!(manager.current_state(), State::Homing);
}

#[test]
fn runner_selection_per_state() {
    assert_eq!(runner_for_state(State::RunningTriangle), RunnerKind::CenterHoldControl);
    assert_eq!(runner_for_state(State::RunningCircling), RunnerKind::CirclingControl);
    assert_eq!(runner_for_state(State::Deinit), RunnerKind::Default);
    assert_eq!(runner_for_state(State::Homing), RunnerKind::Homing);
}

#[test]
fn initializing_runner_reports_init_finished() {
    let mut runner = InitializingStateRunner::new();
    let mut queue = new_event_queue();
    assert_eq!(runner.update::<()>(&mut queue), Ok(()));
    assert!(dequeue_event(&mut queue) == Some(GlobEvent::InitFinished));
    for _ in 0..8 {
        assert!(enqueue_event(&mut queue, GlobEvent::ButtonShortPress) == Ok(()));
    }
    assert_eq!(runner.update::<()>(&mut queue), Err(StateRunnerError::QueueFull(GlobEvent::InitFinished)));
    let mut default_runner = DefaultStateRunner::new();
    let mut ctx = ();
    assert_eq!(RunnableState::<(), ()>::update(&mut default_runner, &mut ctx), Ok(()));
}

#[test]
fn state_runner_error_severities() {
    assert_eq!(StateRunnerError::<()>::QueueFull(GlobEvent::HomingFinished).get_severity(), ErrorSeverity::Panic);
    assert_eq!(StateRunnerError::<()>::HomingOverrun.get_severity(), ErrorSeverity::ImmediateShutdown);
    assert_eq!(StateRunnerError::<u8>::IOError(3).get_severity(), ErrorSeverity::ImmediateShutdown);
}

#[test]
fn cycle_clock_keeps_schedule() {
    let mut clock = CycleClock::new();
    let start = clock.begin_cycle(1_000, 3_000);
    assert_eq!(start.next_call_time, 4_000);
    assert!(!start.overrun);
    // a late cycle does not shift the schedule
    let start = clock.begin_cycle(5_500, 3_000);
    assert_eq!(start.next_call_time, 7_000);
    assert!(!start.overrun);
    // a cycle starting after its due time overruns
    let start = clock.begin_cycle(10_500, 3_000);
    assert_eq!(start.next_call_time, 10_000);
    assert!(start.overrun);
    assert_eq!(LogicRunnerError::<()>::TimeOverrun.get_severity(), ErrorSeverity::ImmediateShutdown);
    assert_eq!(LogicRunnerError::<u8>::TelementryError(1).get_severity(), ErrorSeverity::Report);
}

#[test]
fn menu_helpers() {
    assert_eq!(menu_input_byte(b'\n'), b'\r');
    assert_eq!(menu_input_byte(b'a'), b'a');
    assert_eq!(motor_test_target(2), Some(2));
    assert_eq!(motor_test_target(3), Some(3));
    assert_eq!(motor_test_target(4), None);
    assert_eq!(MenuError::EventBufferOverflow.get_severity(), ErrorSeverity::Panic);
    assert_eq!(MenuError::MenuInterfaceWriteError.get_severity(), ErrorSeverity::Report);
    let mut queue = new_event_queue();
    assert_eq!(menu_send_event(&mut queue, GlobEvent::EnterFeedforward), Ok(()));
    assert!(dequeue_event(&mut queue) == Some(GlobEvent::EnterFeedforward));
    for _ in 0..8 {
        assert_eq!(menu_send_event(&mut queue, GlobEvent::ExitFeedforward), Ok(()));
    }
    assert_eq!(menu_send_event(&mut queue, GlobEvent::ExitFeedforward), Err(MenuError::EventBufferOverflow));
}

#[test]
fn telemetry_fields_and_packet_ids() {
    assert_eq!(TelemetryKind::BallXPos.get_idx(), 0);
    assert_eq!(TelemetryKind::CpuUse.get_idx(), 21);
    assert_eq!(TelemetryKind::BallYTargetVel.get_idx(), TELEMETRY_COUNT - 1);
    assert_eq!(
        motor_target_kinds(1),
        Some((TelemetryKind::MotorTargetBPos, TelemetryKind::MotorTargetBVel, TelemetryKind::MotorTargetBAccel))
    );
    assert_eq!(motor_state_kinds(3), None);
    let mut handler = TelemetryHandler::new(());
    assert_eq!(handler.next_packet_id(), 0);
    assert_eq!(handler.next_packet_id(), 1);
}

struct CountingSender {
    sent: Vec<Vec<u8>>,
}

impl TelemetrySender for CountingSender {
    fn send(&mut self, data: &[u8]) -> Result<(), TelemetrySenderError> {
        self.sent.push(data.to_vec());
        Ok(())
    }
}

#[test]
fn telemetry_sender_reaches_the_link_and_keeps_the_count() {
    let mut handler = TelemetryHandler::new(CountingSender { sent: Vec::new() });
    assert_eq!(handler.next_packet_id(), 0);
    assert_eq!(handler.sender().send(&[1, 2, 3]), Ok(()));
    assert_eq!(handler.sender().sent, vec![vec![1u8, 2, 3]]);
    assert_eq!(handler.sent_packets(), 1);
    assert_eq!(handler.next_packet_id(), 1);
}

#[test]
fn switch_plan_leaves_and_enters_only_on_a_change() {
    assert_eq!(
        switch_plan(State::Initializing, State::Homing),
        SwitchPlan { exit: Some(State::Initializing), enter: Some(State::Homing), run: State::Homing }
    );
    assert_eq!(
        switch_plan(State::Homing, State::Homing),
        SwitchPlan { exit: None, enter: None, run: State::Homing }
    );
}

/// A driver that remembers the last position it was set to.
struct RecordingDriver {
    position: Option<i32>,
}

impl StepperMotorController for RecordingDriver {
    fn set_inputs_effect(&self, _after: &Self, _inputs: bjr_logic::device_traits::MotorInput, _r: Result<(), bjr_logic::device_traits::StepperDeviceError>) -> bool {
        true
    }

    fn get_state_effect(&self, _after: &Self, _r: Result<bjr_logic::device_traits::MotorState, bjr_logic::device_traits::StepperDeviceError>) -> bool {
        true
    }

    fn set_position_effect(&self, after: &Self, new_position: i32, _r: Result<(), bjr_logic::device_traits::StepperDeviceError>) -> bool {
        after.position == Some(new_position)
    }

    fn test_motion_effect(&self, _after: &Self, _r: Result<(), bjr_logic::device_traits::StepperDeviceError>) -> bool {
        true
    }

    fn set_inputs(&mut self, _inputs: bjr_logic::device_traits::MotorInput) -> Result<(), bjr_logic::device_traits::StepperDeviceError> {
        Ok(())
    }

    fn get_state(&mut self) -> Result<bjr_logic::device_traits::MotorState, bjr_logic::device_traits::StepperDeviceError> {
        Err(bjr_logic::device_traits::StepperDeviceError::DriverError)
    }

    fn set_position(&mut self, new_position: i32) -> Result<(), bjr_logic::device_traits::StepperDeviceError> {
        self.position = Some(new_position);
        Ok(())
    }

    fn test_motion(&mut self) -> Result<(), bjr_logic::device_traits::StepperDeviceError> {
        Err(bjr_logic::device_traits::StepperDeviceError::InvalidParameter)
    }
}

#[test]
fn generic_motor_forwards_to_the_motor_it_holds() {
    let mut motor: bjr_logic::motor::GenericMotor<RecordingDriver, RecordingDriver, RecordingDriver> =
        bjr_logic::motor::GenericMotor::MotorB(RecordingDriver { position: None });
    assert_eq!(motor.set_position(42), Ok(()));
    assert_eq!(motor.get_state(), Err(bjr_logic::device_traits::StepperDeviceError::DriverError));
    assert_eq!(motor.test_motion(), Err(bjr_logic::device_traits::StepperDeviceError::InvalidParameter));
    match motor {
        bjr_logic::motor::GenericMotor::MotorB(driver) => assert_eq!(driver.position, Some(42)),
        _ => panic!("the motor changed kind"),
    }
}
