//! Verified decision logic of the ball juggling robot: event state machine,
//! button press detection, error dispatch, limit checking, parameter storage,
//! homing sequencing and state runner management.
pub mod device_traits;
pub mod event;
pub mod event_queue;
pub mod event_handler;
pub mod parameter_manager;
pub mod severity;
pub mod button_handler;
pub mod error_handler;
pub mod limits;
pub mod motor;
pub mod trim;
pub mod state_runner;
pub mod homing;
pub mod state_manager;
pub mod state_runners;
pub mod logic_runner;
pub mod control;
pub mod menu;
pub mod telemetry;
