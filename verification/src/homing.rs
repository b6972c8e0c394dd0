use crate::device_traits::MotorEnabler;
use crate::event::GlobEvent;
use crate::event_queue::{enqueue_event, queued_events, EventQueue};
use crate::motor::{ControlMode, MotorStatus, MOTOR_NUM};
use crate::state_runner::StateRunnerError;
use vstd::pervasive::arbitrary;
use vstd::prelude::*;

verus! {

/// Homing progress of one motor.
#[derive(Clone, Copy, PartialEq, Eq, Debug, Structural)]
pub enum HomingStateRunnerState {
    Default,
    FastApproach,
    StoppingAfterFastApproach,
    SlowApproach,
    StoppingAfterSlowApproach,
    FirstGoingToSafeSpot,
    FinalGoingToSafeSpot,
    Done,
    Error,
}

/// The motions the homing sequence commands; the caller turns them into
/// motor targets with the homing parameters.
#[derive(Clone, Copy, PartialEq, Eq, Debug, Structural)]
pub enum HomingMove {
    /// Towards the limit switch, `HomingMaxTravel` below zero at `HomingHighVelocity`.
    FastApproach,
    /// Stop: position and speed zero.
    Stop,
    /// To `HomingSafePosition` at `HomingHighVelocity`.
    SafeSpot,
    /// Back towards the switch, `HomingSafePosition` below zero at `HomingLowVelocity`.
    SlowApproach,
}

/// A motion with the way the motor follows it.
#[derive(Clone, Copy, PartialEq, Eq, Debug, Structural)]
pub struct HomingCommand {
    pub motion: HomingMove,
    pub mode: ControlMode,
}

/// Faults the homing sequence detects.
#[derive(Clone, Copy, PartialEq, Eq, Debug, Structural)]
pub enum HomingFault {
    /// The motion ended without reaching the limit switch.
    Overrun,
    /// The limit switch stays on at the safe spot.
    LimitSwitchStuckAtSafePos,
    /// The motor stopped before reaching the safe spot (also reported by a
    /// motor that is already in the error state).
    UnexpectedStopGoingToSafePos,
}

/// The state runner error that stands for a fault.
pub open spec fn fault_error_spec<E>(fault: HomingFault) -> StateRunnerError<E> {
    match fault {
        HomingFault::Overrun => StateRunnerError::HomingOverrun,
        HomingFault::LimitSwitchStuckAtSafePos => StateRunnerError::HomingLimistSWStuckAtSafePos,
        HomingFault::UnexpectedStopGoingToSafePos => StateRunnerError::HomingUnexpectedStopGoingToSafePos,
    }
}

pub fn fault_error<E>(fault: HomingFault) -> (r: StateRunnerError<E>)
    ensures
        r == fault_error_spec::<E>(fault),
{
    match fault {
        HomingFault::Overrun => StateRunnerError::HomingOverrun,
        HomingFault::LimitSwitchStuckAtSafePos => StateRunnerError::HomingLimistSWStuckAtSafePos,
        HomingFault::UnexpectedStopGoingToSafePos => StateRunnerError::HomingUnexpectedStopGoingToSafePos,
    }
}

/// What one motor does in one homing round.
#[derive(Clone, Copy, PartialEq, Eq, Debug, Structural)]
pub struct HomingDecision {
    pub next_state: HomingStateRunnerState,
    pub output: Option<HomingCommand>,
    /// The motor position is set to zero (before the new state is taken).
    pub reset_position: bool,
    pub fault: Option<HomingFault>,
}

pub open spec fn stay(state: HomingStateRunnerState) -> HomingDecision {
    HomingDecision { next_state: state, output: None, reset_position: false, fault: None }
}

pub open spec fn go(
    next_state: HomingStateRunnerState,
    motion: HomingMove,
    mode: ControlMode,
    reset_position: bool,
) -> HomingDecision {
    HomingDecision { next_state, output: Some(HomingCommand { motion, mode }), reset_position, fault: None }
}

pub open spec fn fail(fault: HomingFault) -> HomingDecision {
    HomingDecision {
        next_state: HomingStateRunnerState::Error,
        output: None,
        reset_position: false,
        fault: Some(fault),
    }
}

/// The homing sequence of one motor: approach the limit switch fast, stop,
/// back off to the safe spot, approach slowly, stop, and go to the safe spot
/// again; the position is zeroed at the start and whenever the switch is hit.
pub open spec fn homing_decision_spec(state: HomingStateRunnerState, status: MotorStatus) -> HomingDecision {
    match state {
        HomingStateRunnerState::Default => if status.limit_reached {
            go(HomingStateRunnerState::FirstGoingToSafeSpot, HomingMove::SafeSpot, ControlMode::Position, true)
        } else {
            go(HomingStateRunnerState::FastApproach, HomingMove::FastApproach, ControlMode::Position, true)
        },
        HomingStateRunnerState::FastApproach => if status.limit_reached {
            go(HomingStateRunnerState::StoppingAfterFastApproach, HomingMove::Stop, ControlMode::Velocity, true)
        } else if status.position_reached {
            fail(HomingFault::Overrun)
        } else {
            stay(state)
        },
        HomingStateRunnerState::StoppingAfterFastApproach => if status.standstill {
            go(HomingStateRunnerState::FirstGoingToSafeSpot, HomingMove::SafeSpot, ControlMode::Position, false)
        } else {
            stay(state)
        },
        HomingStateRunnerState::SlowApproach => if status.limit_reached {
            go(HomingStateRunnerState::StoppingAfterSlowApproach, HomingMove::Stop, ControlMode::Velocity, true)
        } else if status.position_reached {
            fail(HomingFault::Overrun)
        } else {
            stay(state)
        },
        HomingStateRunnerState::StoppingAfterSlowApproach => if status.standstill {
            go(HomingStateRunnerState::FinalGoingToSafeSpot, HomingMove::SafeSpot, ControlMode::Position, false)
        } else {
            stay(state)
        },
        HomingStateRunnerState::FirstGoingToSafeSpot => if status.position_reached {
            if status.limit_reached {
                fail(HomingFault::LimitSwitchStuckAtSafePos)
            } else {
                go(HomingStateRunnerState::SlowApproach, HomingMove::SlowApproach, ControlMode::Position, false)
            }
        } else if status.standstill {
            fail(HomingFault::UnexpectedStopGoingToSafePos)
        } else {
            stay(state)
        },
        HomingStateRunnerState::FinalGoingToSafeSpot => if status.position_reached {
            if status.limit_reached {
                fail(HomingFault::LimitSwitchStuckAtSafePos)
            } else {
                stay(HomingStateRunnerState::Done)
            }
        } else if status.standstill {
            fail(HomingFault::UnexpectedStopGoingToSafePos)
        } else {
            stay(state)
        },
        HomingStateRunnerState::Done => stay(state),
        HomingStateRunnerState::Error => HomingDecision {
            next_state: state,
            output: None,
            reset_position: false,
            fault: Some(HomingFault::UnexpectedStopGoingToSafePos),
        },
    }
}

/// Decides one homing round of one motor from its reported status.
pub fn homing_decision(state: HomingStateRunnerState, status: MotorStatus) -> (r: HomingDecision)
    ensures
        r == homing_decision_spec(state, status),
{
    let none = HomingDecision { next_state: state, output: None, reset_position: false, fault: None };
    match state {
        HomingStateRunnerState::Default => {
            if status.limit_reached {
                HomingDecision {
                    next_state: HomingStateRunnerState::FirstGoingToSafeSpot,
                    output: Some(HomingCommand { motion: HomingMove::SafeSpot, mode: ControlMode::Position }),
                    reset_position: true,
                    fault: None,
                }
            } else {
                HomingDecision {
                    next_state: HomingStateRunnerState::FastApproach,
                    output: Some(HomingCommand { motion: HomingMove::FastApproach, mode: ControlMode::Position }),
                    reset_position: true,
                    fault: None,
                }
            }
        },
        HomingStateRunnerState::FastApproach => {
            if status.limit_reached {
                HomingDecision {
                    next_state: HomingStateRunnerState::StoppingAfterFastApproach,
                    output: Some(HomingCommand { motion: HomingMove::Stop, mode: ControlMode::Velocity }),
                    reset_position: true,
                    fault: None,
                }
            } else if status.position_reached {
                HomingDecision {
                    next_state: HomingStateRunnerState::Error,
                    output: None,
                    reset_position: false,
                    fault: Some(HomingFault::Overrun),
                }
            } else {
                none
            }
        },
        HomingStateRunnerState::StoppingAfterFastApproach => {
            if status.standstill {
                HomingDecision {
                    next_state: HomingStateRunnerState::FirstGoingToSafeSpot,
                    output: Some(HomingCommand { motion: HomingMove::SafeSpot, mode: ControlMode::Position }),
                    reset_position: false,
                    fault: None,
                }
            } else {
                none
            }
        },
        HomingStateRunnerState::SlowApproach => {
            if status.limit_reached {
                HomingDecision {
                    next_state: HomingStateRunnerState::StoppingAfterSlowApproach,
                    output: Some(HomingCommand { motion: HomingMove::Stop, mode: ControlMode::Velocity }),
                    reset_position: true,
                    fault: None,
                }
            } else if status.position_reached {
                HomingDecision {
                    next_state: HomingStateRunnerState::Error,
                    output: None,
                    reset_position: false,
                    fault: Some(HomingFault::Overrun),
                }
            } else {
                none
            }
        },
        HomingStateRunnerState::StoppingAfterSlowApproach => {
            if status.standstill {
                HomingDecision {
                    next_state: HomingStateRunnerState::FinalGoingToSafeSpot,
                    output: Some(HomingCommand { motion: HomingMove::SafeSpot, mode: ControlMode::Position }),
                    reset_position: false,
                    fault: None,
                }
            } else {
                none
            }
        },
        HomingStateRunnerState::FirstGoingToSafeSpot => {
            if status.position_reached {
                if status.limit_reached {
                    HomingDecision {
                        next_state: HomingStateRunnerState::Error,
                        output: None,
                        reset_position: false,
                        fault: Some(HomingFault::LimitSwitchStuckAtSafePos),
                    }
                } else {
                    HomingDecision {
                        next_state: HomingStateRunnerState::SlowApproach,
                        output: Some(HomingCommand { motion: HomingMove::SlowApproach, mode: ControlMode::Position }),
                        reset_position: false,
                        fault: None,
                    }
                }
            } else if status.standstill {
                HomingDecision {
                    next_state: HomingStateRunnerState::Error,
                    output: None,
                    reset_position: false,
                    fault: Some(HomingFault::UnexpectedStopGoingToSafePos),
                }
            } else {
                none
            }
        },
        HomingStateRunnerState::FinalGoingToSafeSpot => {
            if status.position_reached {
                if status.limit_reached {
                    HomingDecision {
                        next_state: HomingStateRunnerState::Error,
                        output: None,
                        reset_position: false,
                        fault: Some(HomingFault::LimitSwitchStuckAtSafePos),
                    }
                } else {
                    HomingDecision {
                        next_state: HomingStateRunnerState::Done,
                        output: None,
                        reset_position: false,
                        fault: None,
                    }
                }
            } else if status.standstill {
                HomingDecision {
                    next_state: HomingStateRunnerState::Error,
                    output: None,
                    reset_position: false,
                    fault: Some(HomingFault::UnexpectedStopGoingToSafePos),
                }
            } else {
                none
            }
        },
        HomingStateRunnerState::Done => none,
        HomingStateRunnerState::Error => HomingDecision {
            next_state: state,
            output: None,
            reset_position: false,
            fault: Some(HomingFault::UnexpectedStopGoingToSafePos),
        },
    }
}

/// The decision for motor `i` in a round.
pub open spec fn round_decision(
    states: Seq<HomingStateRunnerState>,
    statuses: Seq<MotorStatus>,
    i: int,
) -> HomingDecision {
    homing_decision_spec(states[i], statuses[i])
}

/// The states after a complete round.
pub open spec fn round_next_states(
    states: Seq<HomingStateRunnerState>,
    statuses: Seq<MotorStatus>,
) -> Seq<HomingStateRunnerState> {
    Seq::new(3, |i: int| round_decision(states, statuses, i).next_state)
}

/// The fault of the last of the first `n` motors that reports one.
pub open spec fn last_fault(
    states: Seq<HomingStateRunnerState>,
    statuses: Seq<MotorStatus>,
    n: nat,
) -> Option<HomingFault>
    decreases n,
{
    if n == 0 {
        None
    } else {
        match round_decision(states, statuses, n - 1).fault {
            Some(f) => Some(f),
            None => last_fault(states, statuses, (n - 1) as nat),
        }
    }
}

/// How many of the first `n` motors have finished homing.
pub open spec fn done_count(states: Seq<HomingStateRunnerState>, n: nat) -> nat
    decreases n,
{
    if n == 0 {
        0
    } else {
        done_count(states, (n - 1) as nat) + if states[n - 1] == HomingStateRunnerState::Done {
            1nat
        } else {
            0nat
        }
    }
}

/// The decisions of one round for all motors.
pub struct HomingPlan {
    pub next_states: [HomingStateRunnerState; MOTOR_NUM],
    pub outputs: [Option<HomingCommand>; MOTOR_NUM],
    pub resets: [bool; MOTOR_NUM],
    /// The fault to report (the last motor's wins).
    pub fault: Option<HomingFault>,
    /// How many motors were already done.
    pub done_count: usize,
}

/// Plans one homing round of all motors from their statuses.
pub fn homing_plan(
    states: &[HomingStateRunnerState; MOTOR_NUM],
    statuses: &[MotorStatus; MOTOR_NUM],
) -> (r: HomingPlan)
    ensures
        r.next_states@ == round_next_states(states@, statuses@),
        forall|i: int|
            0 <= i < 3 ==> r.outputs@[i] == #[trigger] round_decision(states@, statuses@, i).output
                && r.resets@[i] == round_decision(states@, statuses@, i).reset_position,
        r.fault == last_fault(states@, statuses@, 3),
        r.done_count == done_count(states@, 3),
{
    let mut next_states = *states;
    let mut outputs: [Option<HomingCommand>; MOTOR_NUM] = [None, None, None];
    let mut resets: [bool; MOTOR_NUM] = [false, false, false];
    let mut fault: Option<HomingFault> = None;
    let mut done: usize = 0;
    let mut i: usize = 0;
    while i < MOTOR_NUM
        invariant
            0 <= i <= 3,
            forall|j: int|
                0 <= j < i ==> next_states@[j] == #[trigger] round_decision(states@, statuses@, j).next_state
                    && outputs@[j] == round_decision(states@, statuses@, j).output
                    && resets@[j] == round_decision(states@, statuses@, j).reset_position,
            fault == last_fault(states@, statuses@, i as nat),
            done == done_count(states@, i as nat),
            done <= i,
        decreases 3 - i,
    {
        let d = homing_decision(states[i], statuses[i]);
        if states[i] == HomingStateRunnerState::Done {
            done = done + 1;
        }
        if d.fault.is_some() {
            fault = d.fault;
        }
        next_states[i] = d.next_state;
        outputs[i] = d.output;
        resets[i] = d.reset_position;
        i = i + 1;
    }
    assert(next_states@ =~= round_next_states(states@, statuses@));
    assert forall|j: int| 0 <= j < 3 implies outputs@[j] == #[trigger] round_decision(states@, statuses@, j).output
        && resets@[j] == round_decision(states@, statuses@, j).reset_position by {
        assert(next_states@[j] == round_decision(states@, statuses@, j).next_state);
    }
    HomingPlan { next_states, outputs, resets, fault, done_count: done }
}

/// Motor input and output that the homing sequence needs; `Error` is the
/// error type of the implementation. What a call does to the implementation
/// is named by an effect relation between its value before the call, its
/// value after the call, the arguments and the result; each call satisfies
/// its relation.
pub trait HomingIO {
    type Error;

    /// A status read that returned `r` can take the implementation from
    /// `self` to `after`.
    spec fn read_effect(&self, after: &Self, r: Result<[MotorStatus; MOTOR_NUM], Self::Error>) -> bool;

    fn read_motor_status(&mut self) -> (r: Result<[MotorStatus; MOTOR_NUM], Self::Error>)
        ensures
            old(self).read_effect(&*final(self), r),
    ;

    /// Zeroing the position of motor `motor_idx`, which returned `r`, can
    /// take the implementation from `self` to `after`.
    spec fn reset_effect(&self, after: &Self, motor_idx: usize, r: Result<(), Self::Error>) -> bool;

    fn reset_motor_pos(&mut self, motor_idx: usize) -> (r: Result<(), Self::Error>)
        ensures
            old(self).reset_effect(&*final(self), motor_idx, r),
    ;

    /// Writing `outputs`, which returned `r`, can take the implementation
    /// from `self` to `after`.
    spec fn write_effect(
        &self,
        after: &Self,
        outputs: [Option<HomingCommand>; MOTOR_NUM],
        r: Result<(), Self::Error>,
    ) -> bool;

    fn write_motor_outputs(&mut self, outputs: [Option<HomingCommand>; MOTOR_NUM]) -> (r: Result<(), Self::Error>)
        ensures
            old(self).write_effect(&*final(self), outputs, r),
    ;
}

/// The motors, below motor `n`, whose position a round zeroes, in order.
pub open spec fn reset_motors(
    states: Seq<HomingStateRunnerState>,
    statuses: Seq<MotorStatus>,
    n: nat,
) -> Seq<usize>
    decreases n,
{
    if n == 0 {
        Seq::empty()
    } else {
        let before = reset_motors(states, statuses, (n - 1) as nat);
        if round_decision(states, statuses, n - 1).reset_position {
            before.push((n - 1) as usize)
        } else {
            before
        }
    }
}

/// The motion commands of a complete round, motor by motor.
pub open spec fn round_outputs(
    states: Seq<HomingStateRunnerState>,
    statuses: Seq<MotorStatus>,
) -> Seq<Option<HomingCommand>> {
    Seq::new(3, |i: int| round_decision(states, statuses, i).output)
}

/// The `k`-th position reset of a round takes `trail[k + 1]` to
/// `trail[k + 2]`; it is the failing call when `failed_last` holds and it is
/// the last one.
pub open spec fn reset_step<IO: HomingIO>(
    trail: Seq<IO>,
    motors: Seq<usize>,
    k: int,
    failed_last: bool,
    err: IO::Error,
) -> bool {
    trail[k + 1].reset_effect(
        &trail[k + 2],
        motors[k],
        if failed_last && k == motors.len() - 1 {
            Err(err)
        } else {
            Ok(())
        },
    )
}

/// The motors whose position a round zeroes, for a round that got to
/// `stage`: none when the read failed; when zeroing motor `stage` failed, the
/// motors before it that ask for a reset and then motor `stage`; otherwise
/// every motor that asks for a reset.
pub open spec fn round_reset_calls(
    states: Seq<HomingStateRunnerState>,
    statuses: Seq<MotorStatus>,
    stage: int,
) -> Seq<usize> {
    if stage < 0 {
        Seq::empty()
    } else if stage < 3 {
        reset_motors(states, statuses, stage as nat).push(stage as usize)
    } else {
        reset_motors(states, statuses, 3)
    }
}

/// The `k`-th position reset of a round that got to `stage`; it failed with
/// `err` when it is the last one and `stage` is below `3`.
pub open spec fn round_reset_step<IO: HomingIO>(
    trail: Seq<IO>,
    states: Seq<HomingStateRunnerState>,
    statuses: Seq<MotorStatus>,
    stage: int,
    k: int,
    err: IO::Error,
) -> bool {
    reset_step(trail, round_reset_calls(states, statuses, stage), k, stage < 3, err)
}

/// The input/output calls of one homing round, as the chain `trail` of
/// values the implementation goes through: the status read (which gave
/// `statuses`, or failed with `err` when `stage == -1`); then the position
/// resets of the motors whose decision asks for one, in motor order (when
/// `stage` is `0..2`, the reset of motor `stage` is the last call and failed
/// with `err`); then, for `stage >= 3`, writing `outputs` (failed with `err`
/// when `stage == 3`).
pub open spec fn homing_round_io<IO: HomingIO>(
    trail: Seq<IO>,
    states: Seq<HomingStateRunnerState>,
    statuses: [MotorStatus; MOTOR_NUM],
    stage: int,
    err: IO::Error,
    outputs: [Option<HomingCommand>; MOTOR_NUM],
) -> bool {
    let motors = round_reset_calls(states, statuses@, stage);
    &&& -1 <= stage <= 4
    &&& trail.len() == if stage < 0 {
        2
    } else if stage < 3 {
        motors.len() + 2
    } else {
        motors.len() + 3
    }
    &&& trail[0].read_effect(&trail[1], if stage < 0 { Err(err) } else { Ok(statuses) })
    &&& forall|k: int|
        0 <= k < motors.len() ==> #[trigger] round_reset_step(trail, states, statuses@, stage, k, err)
    &&& stage >= 3 ==> outputs@ == round_outputs(states, statuses@)
    &&& stage >= 3 ==> trail[motors.len() + 1int].write_effect(
        &trail[motors.len() + 2int],
        outputs,
        if stage == 3 {
            Err(err)
        } else {
            Ok(())
        },
    )
}

/// One homing round, given the statuses read and how far the input/output
/// calls got (`stage`): `-1` the status read failed, `0..2` zeroing that
/// motor's position failed (the motors before it have moved on), `3` writing
/// the outputs failed (all motors have moved on), `4` every call succeeded;
/// then, when all motors were done, `HomingFinished` is queued, otherwise the
/// last fault (if any) is reported.
pub open spec fn homing_update_spec<E>(
    states: Seq<HomingStateRunnerState>,
    statuses: Seq<MotorStatus>,
    stage: int,
    new_states: Seq<HomingStateRunnerState>,
    queue_before: Seq<GlobEvent>,
    queue_after: Seq<GlobEvent>,
    result: Result<(), StateRunnerError<E>>,
) -> bool {
    let next = round_next_states(states, statuses);
    &&& statuses.len() == 3
    &&& -1 <= stage <= 4
    &&& stage < 4 ==> (result matches Err(StateRunnerError::HomingIOError(_)) && queue_after
        == queue_before)
    &&& stage == -1 ==> new_states == states
    &&& 0 <= stage < 3 ==> (round_decision(states, statuses, stage).reset_position && new_states
        == next.take(stage) + states.skip(stage))
    &&& stage >= 3 ==> new_states == next
    &&& stage == 4 ==> if done_count(states, 3) == 3 {
        if queue_before.len() < 8 {
            queue_after == queue_before.push(GlobEvent::HomingFinished) && result is Ok
        } else {
            queue_after == queue_before && result == Err::<(), StateRunnerError<E>>(
                StateRunnerError::QueueFull(GlobEvent::HomingFinished),
            )
        }
    } else {
        queue_after == queue_before && result == match last_fault(states, statuses, 3) {
            None => Ok(()),
            Some(f) => Err(fault_error_spec::<E>(f)),
        }
    }
}

/// One homing round as a whole: the input/output calls of
/// `homing_round_io` lead from `io_before` to `io_after`, the states and the
/// queue change as `homing_update_spec` says for the statuses read, and a
/// failing call's error is the one reported.
pub open spec fn homing_round<IO: HomingIO>(
    io_before: IO,
    io_after: IO,
    trail: Seq<IO>,
    states: Seq<HomingStateRunnerState>,
    statuses: [MotorStatus; MOTOR_NUM],
    stage: int,
    err: IO::Error,
    outputs: [Option<HomingCommand>; MOTOR_NUM],
    new_states: Seq<HomingStateRunnerState>,
    queue_before: Seq<GlobEvent>,
    queue_after: Seq<GlobEvent>,
    result: Result<(), StateRunnerError<IO::Error>>,
) -> bool {
    &&& homing_round_io(trail, states, statuses, stage, err, outputs)
    &&& trail[0] == io_before
    &&& trail.last() == io_after
    &&& homing_update_spec(states, statuses@, stage, new_states, queue_before, queue_after, result)
    &&& stage < 4 ==> result == Err::<(), StateRunnerError<IO::Error>>(StateRunnerError::HomingIOError(err))
}

/// Homes the three motors against their limit switches.
pub struct HomingStateRunner {
    states: [HomingStateRunnerState; MOTOR_NUM],
}

impl Default for HomingStateRunner {
    fn default() -> (r: Self)
        ensures
            r.states_spec() == seq![HomingStateRunnerState::Default; 3],
    {
        HomingStateRunner::new()
    }
}

impl HomingStateRunner {
    /// The homing progress of each motor.
    pub closed spec fn states_spec(&self) -> Seq<HomingStateRunnerState> {
        self.states@
    }

    pub fn new() -> (r: Self)
        ensures
            r.states_spec() == seq![HomingStateRunnerState::Default; 3],
    {
        HomingStateRunner { states: [HomingStateRunnerState::Default; MOTOR_NUM] }
    }

    /// The homing progress of each motor.
    pub fn states(&self) -> (r: [HomingStateRunnerState; MOTOR_NUM])
        ensures
            r@ == self.states_spec(),
    {
        self.states
    }

    /// Entering homing: the motors are switched on and every motor starts over.
    pub fn entry<ME: MotorEnabler>(&mut self, motor_enabler: &mut ME)
        ensures
            final(self).states_spec() == seq![HomingStateRunnerState::Default; 3],
            final(motor_enabler).enabled(),
    {
        motor_enabler.set_enable(true);
        self.states = [HomingStateRunnerState::Default; MOTOR_NUM];
    }

    /// One homing round: reads the motor statuses, zeroes the positions and
    /// moves each motor on as `homing_decision_spec` says, writes the motor
    /// outputs of the round, and queues `HomingFinished` once every motor is
    /// done. The statuses are whatever the read returns; the calls made and
    /// the changes are `homing_round` for them.
    pub fn update<IO: HomingIO>(&mut self, io: &mut IO, queue: &mut EventQueue) -> (r: Result<(), StateRunnerError<IO::Error>>)
        ensures
            exists|
                trail: Seq<IO>,
                statuses: [MotorStatus; MOTOR_NUM],
                stage: int,
                err: IO::Error,
                outputs: [Option<HomingCommand>; MOTOR_NUM],
            |
                #[trigger] homing_round(
                    *old(io),
                    *final(io),
                    trail,
                    old(self).states_spec(),
                    statuses,
                    stage,
                    err,
                    outputs,
                    final(self).states_spec(),
                    queued_events(*old(queue)),
                    queued_events(*final(queue)),
                    r,
                ),
    {
        let ghost states0 = self.states@;
        let ghost queue0 = queued_events(*queue);
        let ghost io0 = *io;
        let statuses = match io.read_motor_status() {
            Ok(s) => s,
            Err(e) => {
                let r = Err(StateRunnerError::HomingIOError(e));
                let ghost trail = seq![io0, *io];
                let ghost st: [MotorStatus; MOTOR_NUM] = arbitrary();
                let ghost outs: [Option<HomingCommand>; MOTOR_NUM] = arbitrary();
                assert(homing_round(io0, *io, trail, states0, st, -1, e, outs, self.states@, queue0, queued_events(*queue), r));
                assert(io0 == *old(io));
                assert(self.states@ == final(self).states_spec());
                assert(*io == *final(io));
                return r;
            },
        };
        let plan = homing_plan(&self.states, &statuses);
        let ghost mut trail: Seq<IO> = seq![io0, *io];
        let ghost err0: IO::Error = arbitrary();
        let mut states = self.states;
        let mut i: usize = 0;
        while i < MOTOR_NUM
            invariant
                0 <= i <= 3,
                states0 == old(self).states_spec(),
                queue0 == queued_events(*old(queue)),
                queue0 == queued_events(*queue),
                io0 == *old(io),
                self.states@ == states0,
                plan.next_states@ == round_next_states(states0, statuses@),
                forall|j: int|
                    0 <= j < 3 ==> plan.outputs@[j] == #[trigger] round_decision(states0, statuses@, j).output
                        && plan.resets@[j] == round_decision(states0, statuses@, j).reset_position,
                states@ == plan.next_states@.take(i as int) + states0.skip(i as int),
                trail.len() == reset_motors(states0, statuses@, i as nat).len() + 2,
                trail[0] == io0,
                trail.last() == *io,
                trail[0].read_effect(&trail[1], Ok::<[MotorStatus; MOTOR_NUM], IO::Error>(statuses)),
                forall|k: int|
                    0 <= k < reset_motors(states0, statuses@, i as nat).len() ==> #[trigger] reset_step(
                        trail,
                        reset_motors(states0, statuses@, i as nat),
                        k,
                        false,
                        err0,
                    ),
            decreases 3 - i,
        {
            let ghost motors_before = reset_motors(states0, statuses@, i as nat);
            let ghost io_before = *io;
            if plan.resets[i] {
                let reset_result = io.reset_motor_pos(i);
                assert(io_before.reset_effect(&*io, i, reset_result));
                match reset_result {
                    Err(e) => {
                        self.states = states;
                        let r = Err(StateRunnerError::HomingIOError(e));
                        let ghost motors = motors_before.push(i);
                        let ghost trail2 = trail.push(*io);
                        assert forall|k: int| 0 <= k < motors.len() implies #[trigger] reset_step(trail2, motors, k, true, e) by {
                            if k < motors_before.len() {
                                assert(reset_step(trail, motors_before, k, false, err0));
                            }
                        }
                        assert(plan.outputs@[i as int] == round_decision(states0, statuses@, i as int).output);
                        assert(round_decision(states0, statuses@, i as int).reset_position);
                        let ghost outs: [Option<HomingCommand>; MOTOR_NUM] = arbitrary();
                        assert(round_reset_calls(states0, statuses@, i as int) == motors);
                        assert forall|k: int| 0 <= k < motors.len() implies #[trigger] round_reset_step(trail2, states0, statuses@, i as int, k, e) by {
                            assert(reset_step(trail2, motors, k, true, e));
                        }
                        assert(homing_round_io(trail2, states0, statuses, i as int, e, outs));
                        assert(homing_round(io0, *io, trail2, states0, statuses, i as int, e, outs, self.states@, queue0, queued_events(*queue), r));
                        assert(io0 == *old(io));
                        assert(self.states@ == final(self).states_spec());
                        assert(*io == *final(io));
                        return r;
                    },
                    Ok(()) => {
                        let ghost motors = motors_before.push(i);
                        let ghost trail2 = trail.push(*io);
                        assert(reset_result is Ok);
                        let ghost unit_value = reset_result->Ok_0;
                        assert(unit_value == ());
                        assert(reset_result == Ok::<(), IO::Error>(()));
                        assert(io_before.reset_effect(&*io, i, Ok(())));
                        assert(trail2[motors_before.len() + 1int] == io_before);
                        assert(trail2[motors_before.len() + 2int] == *io);
                        assert(reset_step(trail2, motors, motors_before.len() as int, false, err0));
                        assert forall|k: int| 0 <= k < motors.len() implies #[trigger] reset_step(trail2, motors, k, false, err0) by {
                            if k < motors_before.len() {
                                assert(reset_step(trail, motors_before, k, false, err0));
                            }
                        }
                        proof {
                            trail = trail2;
                        }
                    },
                }
            }
            states[i] = plan.next_states[i];
            i = i + 1;
            assert(states@ =~= plan.next_states@.take(i as int) + states0.skip(i as int));
            assert(reset_motors(states0, statuses@, i as nat) == if round_decision(states0, statuses@, (i - 1) as int).reset_position {
                motors_before.push((i - 1) as usize)
            } else {
                motors_before
            });
        }
        self.states = states;
        assert(states@ =~= plan.next_states@);
        assert(plan.outputs@ =~= round_outputs(states0, statuses@));
        let ghost motors = reset_motors(states0, statuses@, 3);
        let ghost io_before_write = *io;
        let written = io.write_motor_outputs(plan.outputs);
        let ghost trail2 = trail.push(*io);
        assert forall|k: int| 0 <= k < motors.len() implies #[trigger] reset_step(trail2, motors, k, false, err0) by {
            assert(reset_step(trail, motors, k, false, err0));
        }
        if let Err(e) = written {
            let r = Err(StateRunnerError::HomingIOError(e));
            assert forall|k: int| 0 <= k < motors.len() implies #[trigger] reset_step(trail2, motors, k, false, e) by {
                assert(reset_step(trail2, motors, k, false, err0));
            }
            assert(round_reset_calls(states0, statuses@, 3) == motors);
            assert forall|k: int| 0 <= k < motors.len() implies #[trigger] round_reset_step(trail2, states0, statuses@, 3, k, e) by {
                assert(reset_step(trail2, motors, k, false, e));
            }
            assert(homing_round_io(trail2, states0, statuses, 3, e, plan.outputs));
            assert(homing_round(io0, *io, trail2, states0, statuses, 3, e, plan.outputs, self.states@, queue0, queued_events(*queue), r));
            assert(io0 == *old(io));
            assert(self.states@ == final(self).states_spec());
            assert(*io == *final(io));
            return r;
        }
        let r = if plan.done_count == MOTOR_NUM {
            match enqueue_event(queue, GlobEvent::HomingFinished) {
                Ok(()) => Ok(()),
                Err(e) => Err(StateRunnerError::QueueFull(e)),
            }
        } else {
            match plan.fault {
                None => Ok(()),
                Some(f) => Err(fault_error(f)),
            }
        };
        assert(written is Ok);
        let ghost written_unit = written->Ok_0;
        assert(written_unit == ());
        assert(written == Ok::<(), IO::Error>(()));
        assert(round_reset_calls(states0, statuses@, 4) == motors);
        assert forall|k: int| 0 <= k < motors.len() implies #[trigger] round_reset_step(trail2, states0, statuses@, 4, k, err0) by {
            assert(reset_step(trail2, motors, k, false, err0));
        }
        assert(homing_round_io(trail2, states0, statuses, 4, err0, plan.outputs));
        assert(homing_round(io0, *io, trail2, states0, statuses, 4, err0, plan.outputs, self.states@, queue0, queued_events(*queue), r));
        assert(io0 == *old(io));
        assert(self.states@ == final(self).states_spec());
        assert(*io == *final(io));
        r
    }
}

/// A motor that has finished homing stays finished: it gets no command, no
/// position reset and reports no fault, whatever its status.
pub proof fn lemma_done_is_final(status: MotorStatus)
    ensures
        homing_decision_spec(HomingStateRunnerState::Done, status) == stay(
            HomingStateRunnerState::Done,
        ),
{
}

/// A motor in the error state stays there and keeps reporting a fault.
pub proof fn lemma_error_is_final(status: MotorStatus)
    ensures
        homing_decision_spec(HomingStateRunnerState::Error, status).next_state
            == HomingStateRunnerState::Error,
        homing_decision_spec(HomingStateRunnerState::Error, status).fault is Some,
        homing_decision_spec(HomingStateRunnerState::Error, status).output is None,
{
}

/// Every detected fault puts the motor into the error state and commands no
/// motion.
pub proof fn lemma_fault_means_error_state(state: HomingStateRunnerState, status: MotorStatus)
    requires
        homing_decision_spec(state, status).fault is Some,
    ensures
        homing_decision_spec(state, status).next_state == HomingStateRunnerState::Error,
        homing_decision_spec(state, status).output is None,
{
}

/// The position is zeroed only when homing starts or when the limit switch is
/// hit, and never by a motor that is done or in error.
pub proof fn lemma_reset_only_at_start_or_switch(state: HomingStateRunnerState, status: MotorStatus)
    requires
        homing_decision_spec(state, status).reset_position,
    ensures
        state == HomingStateRunnerState::Default || status.limit_reached,
        state != HomingStateRunnerState::Done && state != HomingStateRunnerState::Error,
{
}

/// A motor becomes done only at the end of the final move to the safe spot,
/// with the position reached and the limit switch released.
pub proof fn lemma_done_only_after_final_safe_spot(state: HomingStateRunnerState, status: MotorStatus)
    requires
        state != HomingStateRunnerState::Done,
        homing_decision_spec(state, status).next_state == HomingStateRunnerState::Done,
    ensures
        state == HomingStateRunnerState::FinalGoingToSafeSpot,
        status.position_reached,
        !status.limit_reached,
{
}

/// A motor in the error state stays there across rounds: whatever the
/// statuses read and however far the input/output calls get, a round leaves
/// it in `Error`, reports an error and queues nothing, so `HomingFinished`
/// never comes until the runner is entered again.
pub proof fn lemma_error_persists_across_rounds<E>(
    states: Seq<HomingStateRunnerState>,
    statuses: Seq<MotorStatus>,
    stage: int,
    new_states: Seq<HomingStateRunnerState>,
    queue_before: Seq<GlobEvent>,
    queue_after: Seq<GlobEvent>,
    result: Result<(), StateRunnerError<E>>,
    i: int,
)
    requires
        states.len() == 3,
        0 <= i < 3,
        states[i] == HomingStateRunnerState::Error,
        homing_update_spec(states, statuses, stage, new_states, queue_before, queue_after, result),
    ensures
        new_states[i] == HomingStateRunnerState::Error,
        result is Err,
        queue_after == queue_before,
{
    reveal_with_fuel(done_count, 4);
    reveal_with_fuel(last_fault, 4);
    assert(round_decision(states, statuses, i).fault is Some);
    assert(done_count(states, 3) < 3);
    assert(last_fault(states, statuses, 3) is Some);
    let next = round_next_states(states, statuses);
    assert(next[i] == round_decision(states, statuses, i).next_state);
    if 0 <= stage < 3 {
        if i < stage {
            assert(new_states[i] == next.take(stage)[i]);
        } else {
            assert(new_states[i] == states.skip(stage)[i - stage]);
        }
    }
}

/// `HomingFinished` is queued by a round only when all three motors were
/// already done; such a round changes no motor, zeroes no position, commands
/// no motion and reports no fault.
pub proof fn lemma_finished_only_when_all_done(
    states: Seq<HomingStateRunnerState>,
    statuses: Seq<MotorStatus>,
)
    requires
        states.len() == 3,
        statuses.len() == 3,
        done_count(states, 3) == 3,
    ensures
        forall|i: int| 0 <= i < 3 ==> states[i] == HomingStateRunnerState::Done,
        round_next_states(states, statuses) == states,
        last_fault(states, statuses, 3) is None,
        round_outputs(states, statuses) == seq![None::<HomingCommand>, None, None],
        reset_motors(states, statuses, 3) == Seq::<usize>::empty(),
{
    reveal_with_fuel(done_count, 4);
    reveal_with_fuel(last_fault, 4);
    reveal_with_fuel(reset_motors, 4);
    assert(round_next_states(states, statuses) =~= states);
    assert(round_outputs(states, statuses) =~= seq![None::<HomingCommand>, None, None]);
}


/// Hitting the limit switch during either approach zeroes the position there,
/// commands a stop in velocity mode and waits for the motor to stand still.
pub proof fn lemma_switch_hit_zeroes_and_stops(state: HomingStateRunnerState, status: MotorStatus)
    requires
        state == HomingStateRunnerState::FastApproach || state == HomingStateRunnerState::SlowApproach,
        status.limit_reached,
    ensures
        homing_decision_spec(state, status).reset_position,
        homing_decision_spec(state, status).output == Some(
            HomingCommand { motion: HomingMove::Stop, mode: ControlMode::Velocity },
        ),
        homing_decision_spec(state, status).fault is None,
        homing_decision_spec(state, status).next_state == (if state == HomingStateRunnerState::FastApproach {
            HomingStateRunnerState::StoppingAfterFastApproach
        } else {
            HomingStateRunnerState::StoppingAfterSlowApproach
        }),
{
}

/// An approach that ends (position reached) without touching the switch is an
/// overrun: the motor goes to the error state and nothing is commanded.
pub proof fn lemma_approach_without_switch_is_overrun(state: HomingStateRunnerState, status: MotorStatus)
    requires
        state == HomingStateRunnerState::FastApproach || state == HomingStateRunnerState::SlowApproach,
        !status.limit_reached,
        status.position_reached,
    ensures
        homing_decision_spec(state, status).fault == Some(HomingFault::Overrun),
        homing_decision_spec(state, status).next_state == HomingStateRunnerState::Error,
        !homing_decision_spec(state, status).reset_position,
{
}

/// Homing starts by zeroing the position: a fresh motor on its switch backs
/// off to the safe spot, any other fresh motor starts the fast approach.
pub proof fn lemma_start_zeroes_and_moves(status: MotorStatus)
    ensures
        homing_decision_spec(HomingStateRunnerState::Default, status).reset_position,
        homing_decision_spec(HomingStateRunnerState::Default, status).fault is None,
        homing_decision_spec(HomingStateRunnerState::Default, status).output == Some(
            if status.limit_reached {
                HomingCommand { motion: HomingMove::SafeSpot, mode: ControlMode::Position }
            } else {
                HomingCommand { motion: HomingMove::FastApproach, mode: ControlMode::Position }
            },
        ),
        homing_decision_spec(HomingStateRunnerState::Default, status).next_state == (if status.limit_reached {
            HomingStateRunnerState::FirstGoingToSafeSpot
        } else {
            HomingStateRunnerState::FastApproach
        }),
{
}

/// A stopping motor that stands still moves to the safe spot in position
/// mode without zeroing; one that still moves keeps waiting.
pub proof fn lemma_stop_then_safe_spot(state: HomingStateRunnerState, status: MotorStatus)
    requires
        state == HomingStateRunnerState::StoppingAfterFastApproach || state
            == HomingStateRunnerState::StoppingAfterSlowApproach,
    ensures
        !homing_decision_spec(state, status).reset_position,
        homing_decision_spec(state, status).fault is None,
        status.standstill ==> homing_decision_spec(state, status).output == Some(
            HomingCommand { motion: HomingMove::SafeSpot, mode: ControlMode::Position },
        ),
        status.standstill ==> homing_decision_spec(state, status).next_state == (if state
            == HomingStateRunnerState::StoppingAfterFastApproach {
            HomingStateRunnerState::FirstGoingToSafeSpot
        } else {
            HomingStateRunnerState::FinalGoingToSafeSpot
        }),
        !status.standstill ==> homing_decision_spec(state, status) == stay(state),
{
}

/// At the safe spot with the switch released, the first visit starts the
/// slow approach and the final one finishes homing; a switch still on there
/// is stuck, and stopping short of the spot is a fault.
pub proof fn lemma_safe_spot_outcomes(state: HomingStateRunnerState, status: MotorStatus)
    requires
        state == HomingStateRunnerState::FirstGoingToSafeSpot || state
            == HomingStateRunnerState::FinalGoingToSafeSpot,
    ensures
        !homing_decision_spec(state, status).reset_position,
        status.position_reached && !status.limit_reached ==> homing_decision_spec(state, status).fault is None,
        status.position_reached && !status.limit_reached && state == HomingStateRunnerState::FirstGoingToSafeSpot
            ==> homing_decision_spec(state, status).next_state == HomingStateRunnerState::SlowApproach
            && homing_decision_spec(state, status).output == Some(
            HomingCommand { motion: HomingMove::SlowApproach, mode: ControlMode::Position },
        ),
        status.position_reached && !status.limit_reached && state == HomingStateRunnerState::FinalGoingToSafeSpot
            ==> homing_decision_spec(state, status).next_state == HomingStateRunnerState::Done,
        status.position_reached && status.limit_reached ==> homing_decision_spec(state, status).fault
            == Some(HomingFault::LimitSwitchStuckAtSafePos),
        !status.position_reached && status.standstill ==> homing_decision_spec(state, status).fault
            == Some(HomingFault::UnexpectedStopGoingToSafePos),
        !status.position_reached && !status.standstill ==> homing_decision_spec(state, status) == stay(state),
{
}

/// While a motor is still on its way (no switch, no target reached), an
/// approach waits without commanding anything new.
pub proof fn lemma_approach_in_progress_waits(state: HomingStateRunnerState, status: MotorStatus)
    requires
        state == HomingStateRunnerState::FastApproach || state == HomingStateRunnerState::SlowApproach,
        !status.limit_reached,
        !status.position_reached,
    ensures
        homing_decision_spec(state, status) == stay(state),
{
}

} // verus!
