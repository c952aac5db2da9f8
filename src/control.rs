//! The decisions of the control loop: for each motor, whether this iteration
//! stops it, steps it, or lets it wait.
//!
//! The caller samples the axes, hands the samples in, writes each motor's
//! outputs to its pins afterwards and sleeps for one tick.

use crate::joystick::{command_for, valid_calibration, Calibration, Cmd, Decoder};
use crate::stepper::{Direction, Motor, MotorView};
use vstd::prelude::*;

verus! {

/// What one motor did in one iteration.
#[derive(Debug, Clone, Copy, PartialEq, Eq, Structural)]
pub enum Action {
    /// The command was `Stop`: outputs forced low.
    Stopped,
    /// One step was taken in this direction.
    Stepped(Direction),
    /// A step was asked for but its delay has not yet run out.
    Waited,
    /// No sample was read for this motor, so nothing was decided.
    Skipped,
}

/// The abstract state of an axis: its motor and the milliseconds since its
/// last step.
pub struct AxisView {
    pub motor: MotorView,
    pub elapsed_ms: u32,
}

impl AxisView {
    /// The axis after acting on `cmd`, and what it did.
    ///
    /// A step is taken once the time since the last one exceeds the delay
    /// asked for; taking it resets that time.
    pub open spec fn apply(self, cmd: Cmd) -> (AxisView, Action) {
        match cmd {
            Cmd::Stop => (AxisView { motor: self.motor.stop(), ..self }, Action::Stopped),
            Cmd::Forward { delay_ms } => if delay_ms < self.elapsed_ms {
                (
                    AxisView { motor: self.motor.forward(), elapsed_ms: 0 },
                    Action::Stepped(Direction::Forward),
                )
            } else {
                (self, Action::Waited)
            },
            Cmd::Backward { delay_ms } => if delay_ms < self.elapsed_ms {
                (
                    AxisView { motor: self.motor.back(), elapsed_ms: 0 },
                    Action::Stepped(Direction::Backward),
                )
            } else {
                (self, Action::Waited)
            },
        }
    }

    /// The axis after one tick of `tick_ms`; the count stops at `u32::MAX`.
    pub open spec fn tick(self, tick_ms: u32) -> AxisView {
        AxisView {
            elapsed_ms: if self.elapsed_ms + tick_ms > u32::MAX {
                u32::MAX
            } else {
                (self.elapsed_ms + tick_ms) as u32
            },
            ..self
        }
    }

    /// The decision for one sample, if one was read, under calibration `c`.
    pub open spec fn decide(self, c: Calibration, sample: Option<u32>) -> (AxisView, Action) {
        match sample {
            Some(raw) => self.apply(command_for(c, raw as int)),
            None => (self, Action::Skipped),
        }
    }
}

/// One motor under joystick control.
pub struct Axis {
    motor: Motor,
    elapsed_ms: u32,
}

impl View for Axis {
    type V = AxisView;

    closed spec fn view(&self) -> AxisView {
        AxisView { motor: self.motor@, elapsed_ms: self.elapsed_ms }
    }
}

impl Axis {
    /// An axis for `motor`, with no time elapsed.
    pub fn new(motor: Motor) -> (r: Axis)
        requires
            motor@.valid(),
        ensures
            r@ == (AxisView { motor: motor@, elapsed_ms: 0 }),
    {
        Axis { motor, elapsed_ms: 0 }
    }

    /// The motor of this axis.
    pub fn motor(&self) -> (r: &Motor)
        ensures
            r@ == self@.motor,
    {
        &self.motor
    }

    /// Milliseconds since the last step.
    pub fn elapsed_ms(&self) -> (r: u32)
        ensures
            r == self@.elapsed_ms,
    {
        self.elapsed_ms
    }

    /// Acts on one command: stops, steps, or waits.
    pub fn apply(&mut self, cmd: Cmd) -> (r: Action)
        requires
            old(self)@.motor.valid(),
        ensures
            (final(self)@, r) == old(self)@.apply(cmd),
            final(self)@.motor.valid(),
    {
        match cmd {
            Cmd::Stop => {
                self.motor.stop();
                Action::Stopped
            },
            Cmd::Forward { delay_ms } => {
                if delay_ms < self.elapsed_ms {
                    self.motor.step_forward();
                    self.elapsed_ms = 0;
                    Action::Stepped(Direction::Forward)
                } else {
                    Action::Waited
                }
            },
            Cmd::Backward { delay_ms } => {
                if delay_ms < self.elapsed_ms {
                    self.motor.step_back();
                    self.elapsed_ms = 0;
                    Action::Stepped(Direction::Backward)
                } else {
                    Action::Waited
                }
            },
        }
    }

    /// Counts one tick of `tick_ms` milliseconds.
    pub fn tick(&mut self, tick_ms: u32)
        ensures
            final(self)@ == old(self)@.tick(tick_ms),
    {
        self.elapsed_ms = self.elapsed_ms.saturating_add(tick_ms);
    }
}

/// The abstract state of the controller.
pub struct ControllerView {
    pub calibration: Calibration,
    pub first: AxisView,
    pub second: AxisView,
    pub tick_ms: u32,
}

impl ControllerView {
    pub open spec fn valid(self) -> bool {
        &&& valid_calibration(self.calibration)
        &&& self.first.motor.valid()
        &&& self.second.motor.valid()
    }

    /// One iteration: each axis decides on its own sample, then both count a tick.
    pub open spec fn iterate(self, x: Option<u32>, y: Option<u32>) -> (ControllerView, (Action, Action)) {
        let (first, a1) = self.first.decide(self.calibration, x);
        let (second, a2) = self.second.decide(self.calibration, y);
        (
            ControllerView {
                first: first.tick(self.tick_ms),
                second: second.tick(self.tick_ms),
                ..self
            },
            (a1, a2),
        )
    }
}

/// Two motors, each steered by one joystick axis under a shared calibration.
pub struct Controller {
    decoder: Decoder,
    first: Axis,
    second: Axis,
    tick_ms: u32,
}

impl View for Controller {
    type V = ControllerView;

    closed spec fn view(&self) -> ControllerView {
        ControllerView {
            calibration: self.decoder@,
            first: self.first@,
            second: self.second@,
            tick_ms: self.tick_ms,
        }
    }
}

impl Controller {
    /// A controller whose loop sleeps `tick_ms` milliseconds per iteration.
    pub fn new(decoder: Decoder, first: Motor, second: Motor, tick_ms: u32) -> (r: Controller)
        requires
            valid_calibration(decoder@),
            first@.valid(),
            second@.valid(),
        ensures
            r@ == (ControllerView {
                calibration: decoder@,
                first: AxisView { motor: first@, elapsed_ms: 0 },
                second: AxisView { motor: second@, elapsed_ms: 0 },
                tick_ms,
            }),
            r@.valid(),
    {
        Controller { decoder, first: Axis::new(first), second: Axis::new(second), tick_ms }
    }

    /// The axis steered by the first sample.
    pub fn first(&self) -> (r: &Axis)
        ensures
            r@ == self@.first,
    {
        &self.first
    }

    /// The axis steered by the second sample.
    pub fn second(&self) -> (r: &Axis)
        ensures
            r@ == self@.second,
    {
        &self.second
    }

    /// One iteration of the control loop.
    ///
    /// A sample that could not be read is passed as `None`: that motor is
    /// left as it is for this iteration and the loop goes on, rather than
    /// ending on the first failed read.
    pub fn iterate(&mut self, x: Option<u32>, y: Option<u32>) -> (r: (Action, Action))
        requires
            old(self)@.valid(),
        ensures
            (final(self)@, r) == old(self)@.iterate(x, y),
            final(self)@.valid(),
    {
        let a1 = match x {
            Some(raw) => self.first.apply(self.decoder.decode(raw)),
            None => Action::Skipped,
        };
        let a2 = match y {
            Some(raw) => self.second.apply(self.decoder.decode(raw)),
            None => Action::Skipped,
        };
        self.first.tick(self.tick_ms);
        self.second.tick(self.tick_ms);
        (a1, a2)
    }
}

} // verus!
