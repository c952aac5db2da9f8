//! Open-loop control of stepper motors from an analog joystick.
//!
//! The library holds the decisions: which coil pattern a motor's outputs
//! carry after each step, which motion command a raw joystick sample asks
//! for, and when a motor takes its next step. Reading the analog axes,
//! writing the output pins and sleeping are left to the caller.
//!
//! It also holds the settings of a PWM-driven servo and the arithmetic
//! between the servo's angle and its duty.

pub mod control;
pub mod joystick;
pub mod servo;
pub mod stepper;

pub use control::{Action, Axis, AxisView, Controller, ControllerView};
pub use joystick::{Calibration, CalibrationError, Cmd, Decoder};
pub use servo::{ServoBuilder, ServoConfig, SpeedMode};
pub use stepper::{coil_is_high, Direction, Motor, MotorView, PhaseTable, TableError};
