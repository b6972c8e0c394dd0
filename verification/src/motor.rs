use crate::device_traits::{MotorInput, MotorState, StepperDeviceError, StepperMotorController};
use vstd::prelude::*;

verus! {

/// Number of motors (pistons) under the plate.
pub const MOTOR_NUM: usize = 3;

/// How a motor follows its target.
#[derive(Clone, Copy, PartialEq, Eq, Debug, Structural)]
pub enum ControlMode {
    Position,
    Velocity,
}

impl Default for ControlMode {
    fn default() -> (r: ControlMode)
        ensures
            r == ControlMode::Position,
    {
        ControlMode::Position
    }
}

/// Flags reported by a motor driver.
#[derive(Clone, Copy, PartialEq, Eq, Debug, Structural)]
pub struct MotorStatus {
    pub limit_reached: bool,
    pub position_reached: bool,
    pub velocity_reached: bool,
    pub standstill: bool,
}

impl Default for MotorStatus {
    /// All flags cleared.
    fn default() -> (r: MotorStatus)
        ensures
            !r.limit_reached && !r.position_reached && !r.velocity_reached && !r.standstill,
    {
        MotorStatus {
            limit_reached: false,
            position_reached: false,
            velocity_reached: false,
            standstill: false,
        }
    }
}

impl MotorStatus {
    /// The flags of a raw driver state.
    pub fn from_motor_state(state: &MotorState) -> (r: MotorStatus)
        ensures
            r.limit_reached == state.limit_reached,
            r.position_reached == state.position_reached,
            r.velocity_reached == state.velocity_reached,
            r.standstill == state.standstill,
    {
        MotorStatus {
            limit_reached: state.limit_reached,
            position_reached: state.position_reached,
            velocity_reached: state.velocity_reached,
            standstill: state.standstill,
        }
    }
}

/// One of three motor drivers of possibly different types.
pub enum GenericMotor<MA, MB, MC> {
    MotorA(MA),
    MotorB(MB),
    MotorC(MC),
}

/// Every call goes to the motor held, with the same arguments; its result is
/// returned and the motor stays of the same kind.
impl<MA, MB, MC> StepperMotorController for GenericMotor<MA, MB, MC> where
    MA: StepperMotorController,
    MB: StepperMotorController,
    MC: StepperMotorController,
 {
    open spec fn set_inputs_effect(&self, after: &Self, inputs: MotorInput, r: Result<(), StepperDeviceError>) -> bool {
        match (*self, *after) {
            (GenericMotor::MotorA(a), GenericMotor::MotorA(a2)) => a.set_inputs_effect(&a2, inputs, r),
            (GenericMotor::MotorB(b), GenericMotor::MotorB(b2)) => b.set_inputs_effect(&b2, inputs, r),
            (GenericMotor::MotorC(c), GenericMotor::MotorC(c2)) => c.set_inputs_effect(&c2, inputs, r),
            _ => false,
        }
    }

    fn set_inputs(&mut self, inputs: MotorInput) -> (r: Result<(), StepperDeviceError>) {
        match self {
            GenericMotor::MotorA(ma) => ma.set_inputs(inputs),
            GenericMotor::MotorB(mb) => mb.set_inputs(inputs),
            GenericMotor::MotorC(mc) => mc.set_inputs(inputs),
        }
    }

    open spec fn get_state_effect(&self, after: &Self, r: Result<MotorState, StepperDeviceError>) -> bool {
        match (*self, *after) {
            (GenericMotor::MotorA(a), GenericMotor::MotorA(a2)) => a.get_state_effect(&a2, r),
            (GenericMotor::MotorB(b), GenericMotor::MotorB(b2)) => b.get_state_effect(&b2, r),
            (GenericMotor::MotorC(c), GenericMotor::MotorC(c2)) => c.get_state_effect(&c2, r),
            _ => false,
        }
    }

    fn get_state(&mut self) -> (r: Result<MotorState, StepperDeviceError>) {
        match self {
            GenericMotor::MotorA(ma) => ma.get_state(),
            GenericMotor::MotorB(mb) => mb.get_state(),
            GenericMotor::MotorC(mc) => mc.get_state(),
        }
    }

    open spec fn set_position_effect(&self, after: &Self, new_position: i32, r: Result<(), StepperDeviceError>) -> bool {
        match (*self, *after) {
            (GenericMotor::MotorA(a), GenericMotor::MotorA(a2)) => a.set_position_effect(&a2, new_position, r),
            (GenericMotor::MotorB(b), GenericMotor::MotorB(b2)) => b.set_position_effect(&b2, new_position, r),
            (GenericMotor::MotorC(c), GenericMotor::MotorC(c2)) => c.set_position_effect(&c2, new_position, r),
            _ => false,
        }
    }

    fn set_position(&mut self, new_position: i32) -> (r: Result<(), StepperDeviceError>) {
        match self {
            GenericMotor::MotorA(ma) => ma.set_position(new_position),
            GenericMotor::MotorB(mb) => mb.set_position(new_position),
            GenericMotor::MotorC(mc) => mc.set_position(new_position),
        }
    }

    open spec fn test_motion_effect(&self, after: &Self, r: Result<(), StepperDeviceError>) -> bool {
        match (*self, *after) {
            (GenericMotor::MotorA(a), GenericMotor::MotorA(a2)) => a.test_motion_effect(&a2, r),
            (GenericMotor::MotorB(b), GenericMotor::MotorB(b2)) => b.test_motion_effect(&b2, r),
            (GenericMotor::MotorC(c), GenericMotor::MotorC(c2)) => c.test_motion_effect(&c2, r),
            _ => false,
        }
    }

    fn test_motion(&mut self) -> (r: Result<(), StepperDeviceError>) {
        match self {
            GenericMotor::MotorA(ma) => ma.test_motion(),
            GenericMotor::MotorB(mb) => mb.test_motion(),
            GenericMotor::MotorC(mc) => mc.test_motion(),
        }
    }
}

} // verus!
