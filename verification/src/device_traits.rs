use vstd::prelude::*;

verus! {

/// Switches the power stage of the motors on or off.
pub trait MotorEnabler {
    /// Whether the power stage is on, as it was last set.
    spec fn enabled(&self) -> bool;

    fn set_enable(&mut self, enable: bool)
        ensures
            final(self).enabled() == enable,
    ;
}

/// Raw state reported by a stepper motor driver (microsteps).
#[derive(Clone, Copy, PartialEq, Eq, Debug)]
pub struct MotorState {
    pub velocity: i32,
    pub position: i32,
    pub limit_reached: bool,
    pub velocity_reached: bool,
    pub position_reached: bool,
    pub standstill: bool,
}

#[derive(Clone, Copy, PartialEq, Eq, Debug)]
pub enum MotorMode {
    PositionCtrl,
    VelocityCtrl,
}

/// Raw command for a stepper motor driver (microsteps).
#[derive(Clone, Copy, PartialEq, Eq, Debug)]
pub struct MotorInput {
    pub velocity: i32,
    pub acceleration: i32,
    pub position: i32,
    pub mode: MotorMode,
}

/// A stepper motor driver. What a call does to the driver is the driver's own
/// business: each driver names it with an effect relation between the driver
/// before the call, the driver after it, the arguments and the result, and
/// each call satisfies its relation. Callers that forward calls state their
/// effect through these relations.
pub trait StepperMotorController {
    /// A `set_inputs(inputs)` call that returned `r` can take the driver from
    /// `self` to `after`.
    spec fn set_inputs_effect(&self, after: &Self, inputs: MotorInput, r: Result<(), StepperDeviceError>) -> bool;

    fn set_inputs(&mut self, inputs: MotorInput) -> (r: Result<(), StepperDeviceError>)
        ensures
            old(self).set_inputs_effect(&*final(self), inputs, r),
    ;

    /// A `get_state()` call that returned `r` can take the driver from `self`
    /// to `after`.
    spec fn get_state_effect(&self, after: &Self, r: Result<MotorState, StepperDeviceError>) -> bool;

    fn get_state(&mut self) -> (r: Result<MotorState, StepperDeviceError>)
        ensures
            old(self).get_state_effect(&*final(self), r),
    ;

    /// A `set_position(new_position)` call that returned `r` can take the
    /// driver from `self` to `after`.
    spec fn set_position_effect(&self, after: &Self, new_position: i32, r: Result<(), StepperDeviceError>) -> bool;

    fn set_position(&mut self, new_position: i32) -> (r: Result<(), StepperDeviceError>)
        ensures
            old(self).set_position_effect(&*final(self), new_position, r),
    ;

    /// A `test_motion()` call that returned `r` can take the driver from
    /// `self` to `after`.
    spec fn test_motion_effect(&self, after: &Self, r: Result<(), StepperDeviceError>) -> bool;

    fn test_motion(&mut self) -> (r: Result<(), StepperDeviceError>)
        ensures
            old(self).test_motion_effect(&*final(self), r),
    ;
}

#[derive(Clone, Copy, PartialEq, Eq, Debug)]
pub struct Point {
    pub x: i32,
    pub y: i32,
}

pub trait TouchSensor {
    fn get_touch(&mut self) -> Result<Option<Point>, TouchSensorError>;
}

#[derive(Clone, Copy, PartialEq, Eq, Debug)]
pub enum TouchSensorError {
    CommunicationError(CommsError),
}

pub trait Button {
    /// A sample that read `pressed` can take the button from `self` to
    /// `after`.
    spec fn is_pressed_effect(&self, after: &Self, pressed: bool) -> bool;

    fn is_pressed(&mut self) -> (pressed: bool)
        ensures
            old(self).is_pressed_effect(&*final(self), pressed),
    ;
}

pub trait Monotonic {
    fn current_time(&mut self) -> u64;
}

pub trait Reader {
    fn read(&mut self, buf: &mut [u8]) -> usize;
}

#[derive(Clone, Copy, PartialEq, Eq, Debug)]
pub enum DeviceError {
    CommunicationError,
    InvalidParameter,
    HardwareFailure,
}

#[derive(Clone, Copy, PartialEq, Eq, Debug)]
pub enum StepperMotorPhase {
    A,
    B,
}

#[derive(Clone, Copy, PartialEq, Eq, Debug)]
pub enum StepperDeviceError {
    CommunicationError(CommsError),
    SelfTestVersionMismatch,
    DriverError,
    ShortToGround(StepperMotorPhase),
    OpenLoad(StepperMotorPhase),
    OverTemperatureShutdown,
    UnexpectedReset,
    InvalidParameter,
    EnableError,
    HardwareFailure,
}

#[derive(Clone, Copy, PartialEq, Eq, Debug)]
pub enum CommsError {
    SPIMutex,
    SPICSPIn,
    SPIOverrun,
    SPICRIC,
    SPIModeFault,
    SPIFrameFormat,
    NotImplemented,
    Unknown,
}

#[derive(Clone, Copy, PartialEq, Eq, Debug)]
pub enum TelemetrySenderError {
    ConnectionError,
    SendError,
}

pub trait TelemetrySender {
    fn send(&mut self, data: &[u8]) -> Result<(), TelemetrySenderError>;
}

/// Source of the monotonic microsecond tick.
pub trait TimeControl {
    fn get_tick(&self) -> u64;
}

} // verus!
