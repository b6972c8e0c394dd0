use bjr_logic::event::GlobEvent;
use bjr_logic::event_queue::{dequeue_event, new_event_queue};
use bjr_logic::homing::{
    homing_decision, homing_plan, HomingCommand, HomingFault, HomingIO, HomingMove,
    HomingStateRunner, HomingStateRunnerState,
};
use bjr_logic::motor::{ControlMode, MotorStatus};
use bjr_logic::state_runner::StateRunnerError;

fn status(limit: bool, position: bool, standstill: bool) -> MotorStatus {
    MotorStatus { limit_reached: limit, position_reached: position, velocity_reached: false, standstill }
}

/// Reports the same status for every motor and records what it is asked.
struct FakeIO {
    status: MotorStatus,
    resets: Vec<usize>,
    outputs: Vec<[Option<HomingCommand>; 3]>,
    fail_reset_of: Option<usize>,
}

impl FakeIO {
    fn new(status: MotorStatus) -> Self {
        FakeIO { status, resets: vec![], outputs: vec![], fail_reset_of: None }
    }
}

impl HomingIO for FakeIO {
    type Error = u8;

    fn read_effect(&self, after: &Self, _r: Result<[MotorStatus; 3], u8>) -> bool {
        after.resets == self.resets && after.outputs == self.outputs
    }

    fn reset_effect(&self, after: &Self, motor_idx: usize, r: Result<(), u8>) -> bool {
        let mut expected = self.resets.clone();
        if r.is_ok() {
            expected.push(motor_idx);
        }
        after.resets == expected && after.outputs == self.outputs
    }

    fn write_effect(&self, after: &Self, outputs: [Option<HomingCommand>; 3], _r: Result<(), u8>) -> bool {
        let mut expected = self.outputs.clone();
        expected.push(outputs);
        after.resets == self.resets && after.outputs == expected
    }

    fn read_motor_status(&mut self) -> Result<[MotorStatus; 3], u8> {
        Ok([self.status; 3])
    }

    fn reset_motor_pos(&mut self, motor_idx: usize) -> Result<(), u8> {
        if self.fail_reset_of == Some(motor_idx) {
            return Err(7);
        }
        self.resets.push(motor_idx);
        Ok(())
    }

    fn write_motor_outputs(&mut self, outputs: [Option<HomingCommand>; 3]) -> Result<(), u8> {
        self.outputs.push(outputs);
        Ok(())
    }
}

#[test]
fn homing_full_sequence_reaches_done_and_reports() {
    let mut runner = HomingStateRunner::new();
    let mut queue = new_event_queue();
    let steps = [
        (status(false, false, false), HomingStateRunnerState::FastApproach),
        (status(true, false, false), HomingStateRunnerState::StoppingAfterFastApproach),
        (status(true, false, true), HomingStateRunnerState::FirstGoingToSafeSpot),
        (status(false, true, false), HomingStateRunnerState::SlowApproach),
        (status(true, false, false), HomingStateRunnerState::StoppingAfterSlowApproach),
        (status(true, false, true), HomingStateRunnerState::FinalGoingToSafeSpot),
        (status(false, true, false), HomingStateRunnerState::Done),
    ];
    for (st, expected) in steps.iter() {
        let mut io = FakeIO::new(*st);
        assert_eq!(runner.update(&mut io, &mut queue), Ok(()));
        assert_eq!(runner.states(), [*expected; 3]);
        assert!(dequeue_event(&mut queue) == None);
    }
    let mut io = FakeIO::new(status(false, true, true));
    assert_eq!(runner.update(&mut io, &mut queue), Ok(()));
    assert!(dequeue_event(&mut queue) == Some(GlobEvent::HomingFinished));
    assert!(dequeue_event(&mut queue) == None);
}

#[test]
fn homing_first_round_zeroes_and_approaches() {
    let mut runner = HomingStateRunner::new();
    let mut queue = new_event_queue();
    let mut io = FakeIO::new(status(false, false, false));
    assert_eq!(runner.update(&mut io, &mut queue), Ok(()));
    assert_eq!(io.resets, vec![0, 1, 2]);
    let fast = Some(HomingCommand { motion: HomingMove::FastApproach, mode: ControlMode::Position });
    assert_eq!(io.outputs, vec![[fast; 3]]);
}

#[test]
fn homing_overrun_is_reported() {
    let mut runner = HomingStateRunner::new();
    let mut queue = new_event_queue();
    let mut io = FakeIO::new(status(false, false, false));
    assert_eq!(runner.update(&mut io, &mut queue), Ok(()));
    let mut io = FakeIO::new(status(false, true, false));
    assert_eq!(runner.update(&mut io, &mut queue), Err(StateRunnerError::HomingOverrun));
    assert_eq!(runner.states(), [HomingStateRunnerState::Error; 3]);
    let mut io = FakeIO::new(status(false, false, false));
    assert_eq!(
        runner.update(&mut io, &mut queue),
        Err(StateRunnerError::HomingUnexpectedStopGoingToSafePos)
    );
    assert_eq!(runner.states(), [HomingStateRunnerState::Error; 3]);
    assert!(dequeue_event(&mut queue) == None);
}

#[test]
fn homing_reset_failure_stops_the_round() {
    let mut runner = HomingStateRunner::new();
    let mut queue = new_event_queue();
    let mut io = FakeIO::new(status(false, false, false));
    io.fail_reset_of = Some(1);
    assert_eq!(runner.update(&mut io, &mut queue), Err(StateRunnerError::HomingIOError(7)));
    assert_eq!(
        runner.states(),
        [
            HomingStateRunnerState::FastApproach,
            HomingStateRunnerState::Default,
            HomingStateRunnerState::Default
        ]
    );
    assert!(io.outputs.is_empty());
}

#[test]
fn homing_decisions_of_single_motor() {
    let d = homing_decision(HomingStateRunnerState::Default, status(true, false, false));
    assert_eq!(d.next_state, HomingStateRunnerState::FirstGoingToSafeSpot);
    assert!(d.reset_position);
    let d = homing_decision(HomingStateRunnerState::FirstGoingToSafeSpot, status(true, true, false));
    assert_eq!(d.fault, Some(HomingFault::LimitSwitchStuckAtSafePos));
    assert_eq!(d.next_state, HomingStateRunnerState::Error);
    let d = homing_decision(HomingStateRunnerState::FinalGoingToSafeSpot, status(false, false, true));
    assert_eq!(d.fault, Some(HomingFault::UnexpectedStopGoingToSafePos));
    let d = homing_decision(HomingStateRunnerState::SlowApproach, status(false, false, false));
    assert_eq!(d.next_state, HomingStateRunnerState::SlowApproach);
    assert_eq!(d.output, None);
}

#[test]
fn homing_plan_last_fault_wins() {
    let states = [
        HomingStateRunnerState::FastApproach,
        HomingStateRunnerState::Done,
        HomingStateRunnerState::FirstGoingToSafeSpot,
    ];
    let statuses = [status(false, true, false), status(false, false, false), status(true, true, false)];
    let plan = homing_plan(&states, &statuses);
    assert_eq!(plan.fault, Some(HomingFault::LimitSwitchStuckAtSafePos));
    assert_eq!(plan.done_count, 1);
    assert_eq!(plan.next_states, [HomingStateRunnerState::Error, HomingStateRunnerState::Done, HomingStateRunnerState::Error]);
}
