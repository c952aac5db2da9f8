//! Servo settings and the arithmetic between an angle and a PWM duty.
//!
//! The PWM channel itself belongs to the caller, which reads and writes the
//! duty and hands the values here.

use vstd::prelude::*;

verus! {

/// Builder for servo settings; it holds nothing yet.
pub struct ServoBuilder {}

impl ServoBuilder {}

/// The PWM peripheral's speed mode.
#[derive(Debug, Clone, Copy, PartialEq, Eq, Structural)]
pub enum SpeedMode {
    /// Supported on ESP32-S2, ESP32-S3, ESP32-C2 and ESP32-C3.
    LowSpeed,
    /// Supported on ESP32.
    HighSpeed,
}

/// Settings of one servo.
#[derive(Debug, Clone, Copy, PartialEq, Eq, Structural)]
pub struct ServoConfig {
    /// Largest angle the servo turns to, mostly 180 or 360.
    pub max_angle: u32,
    /// Duty resolution in bits.
    pub resolution_bits: u8,
    /// Speed mode of the PWM timer.
    pub speed_mode: SpeedMode,
    /// PWM frequency the servo expects, in hertz.
    pub frequency_hz: u32,
}

impl ServoConfig {
    /// Settings for the SG90: 180 degrees, 10-bit duty, 50 Hz.
    pub fn sg90(speed_mode: SpeedMode) -> (r: ServoConfig)
        ensures
            r == (ServoConfig { max_angle: 180, resolution_bits: 10, speed_mode, frequency_hz: 50 }),
    {
        ServoConfig { max_angle: 180, resolution_bits: 10, speed_mode, frequency_hz: 50 }
    }

    /// Settings for the SG90S, which are those of the SG90.
    #[allow(dead_code)]
    fn sg90s(speed_mode: SpeedMode) -> (r: ServoConfig)
        ensures
            r == (ServoConfig { max_angle: 180, resolution_bits: 10, speed_mode, frequency_hz: 50 }),
    {
        Self::sg90(speed_mode)
    }

    /// The angle that `duty` out of `max_duty` stands for, rounded down.
    pub fn angle_for_duty(&self, duty: u32, max_duty: u32) -> (r: u32)
        requires
            max_duty > 0,
            self.max_angle * duty <= u32::MAX,
        ensures
            r == self.max_angle * duty / (max_duty as int),
    {
        self.max_angle * duty / max_duty
    }

    /// The duty, out of `max_duty`, that turns the servo to `angle`, rounded down.
    pub fn duty_for_angle(&self, angle: u32, max_duty: u32) -> (r: u32)
        requires
            self.max_angle > 0,
            max_duty * angle <= u32::MAX,
        ensures
            r == max_duty * angle / (self.max_angle as int),
    {
        max_duty * angle / self.max_angle
    }
}

} // verus!
