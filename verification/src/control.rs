use crate::limits::{LimitLevel, MotorControlVelLimit};
use vstd::prelude::*;

verus! {

/// Groups a controller with its feedforward and setpoint generators.
pub struct ControlExecutor<CTRL, FFG, SPG> {
    controller: CTRL,
    feedforward_gen: FFG,
    setpoint_gen: SPG,
}

impl<CTRL, FFG, SPG> ControlExecutor<CTRL, FFG, SPG> {
    pub closed spec fn parts(&self) -> (CTRL, FFG, SPG) {
        (self.controller, self.feedforward_gen, self.setpoint_gen)
    }

    pub fn new(controller: CTRL, feedforward_gen: FFG, setpoint_gen: SPG) -> (r: Self)
        ensures
            r.parts() == (controller, feedforward_gen, setpoint_gen),
    {
        ControlExecutor { controller, feedforward_gen, setpoint_gen }
    }
}

/// Setpoint generator that holds the ball in the center of the plate.
pub struct SetPointGenCH {}

pub struct ControlExecInputs {}

/// The ball patterns.
#[derive(Clone, Copy, PartialEq, Eq, Debug, Structural)]
pub enum BallPattern {
    CenterHold,
    Triangle,
    Circling,
}

/// Proportional position controller of one motor; the velocity it commands
/// is clamped to the `MCVelMin`..`MCVelMax` range.
pub struct MotorController {
    vel_limit: MotorControlVelLimit,
}

impl MotorController {
    pub closed spec fn vel_limit_spec(&self) -> MotorControlVelLimit {
        self.vel_limit
    }

    /// The limit applied to the commanded velocity.
    pub fn vel_limit(&self) -> (r: &MotorControlVelLimit)
        ensures
            *r == self.vel_limit_spec(),
    {
        &self.vel_limit
    }
}

impl Default for MotorController {
    fn default() -> (r: Self)
        ensures
            r.vel_limit_spec().configured_level() == LimitLevel::Clamp,
    {
        MotorController { vel_limit: MotorControlVelLimit::new(LimitLevel::Clamp) }
    }
}

} // verus!
