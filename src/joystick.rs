//! Joystick command decoder: one raw analog sample to a motion command.

use vstd::arithmetic::div_mod::{lemma_div_by_multiple, lemma_div_is_ordered, lemma_div_pos_is_pos};
use vstd::arithmetic::mul::{lemma_mul_inequality, lemma_mul_is_commutative, lemma_mul_upper_bound};
use vstd::prelude::*;

verus! {

/// Calibration of one joystick axis, and the range of step delays that its
/// travel maps onto. A smaller delay asks for faster motion.
#[derive(Debug, Clone, Copy, PartialEq, Eq, Structural)]
pub struct Calibration {
    /// Reading at the rest position.
    pub center: u32,
    /// Half-width of the dead zone around `center`.
    pub threshold: u32,
    /// Reading at full deflection one way.
    pub min_value: u32,
    /// Reading at full deflection the other way.
    pub max_value: u32,
    /// Delay at full deflection.
    pub min_delay_ms: u32,
    /// Delay that a deflection just short of the centre would ask for.
    pub max_delay_ms: u32,
}

/// Why a calibration was refused.
#[derive(Debug, Clone, Copy, PartialEq, Eq, Structural)]
pub enum CalibrationError {
    /// `min_value` lies above `max_value`.
    InvertedRange,
    /// The dead zone does not lie strictly inside `(min_value, max_value)`.
    DeadZoneOutOfRange,
    /// `min_delay_ms` lies above `max_delay_ms`.
    InvertedDelays,
}

/// The motion that one sample asks for.
#[derive(Debug, Clone, Copy, PartialEq, Eq, Structural)]
pub enum Cmd {
    Stop,
    Forward {
        /// Delay between steps in milliseconds.
        delay_ms: u32,
    },
    Backward {
        /// Delay between steps in milliseconds.
        delay_ms: u32,
    },
}

/// The first thing wrong with a calibration, checked in the order of the
/// variants of `CalibrationError`.
pub open spec fn calibration_error(c: Calibration) -> Option<CalibrationError> {
    if c.min_value > c.max_value {
        Some(CalibrationError::InvertedRange)
    } else if !(c.min_value + c.threshold < c.center && c.center + c.threshold < c.max_value) {
        Some(CalibrationError::DeadZoneOutOfRange)
    } else if c.min_delay_ms > c.max_delay_ms {
        Some(CalibrationError::InvertedDelays)
    } else {
        None
    }
}

pub open spec fn valid_calibration(c: Calibration) -> bool {
    calibration_error(c) is None
}

/// The sample moved into `[min_value, max_value]`.
pub open spec fn clamp(c: Calibration, raw: int) -> int {
    if raw < c.min_value {
        c.min_value as int
    } else if raw > c.max_value {
        c.max_value as int
    } else {
        raw
    }
}

pub open spec fn in_dead_zone(c: Calibration, v: int) -> bool {
    c.center - c.threshold <= v <= c.center + c.threshold
}

pub open spec fn at_least(d: int, lo: int) -> int {
    if d < lo {
        lo
    } else {
        d
    }
}

/// Delay for a reading `v` in `[min_value, center]`: `max_delay_ms` scaled
/// by the share of that span between `min_value` and `v`, floored at
/// `min_delay_ms`.
pub open spec fn forward_delay(c: Calibration, v: int) -> int {
    at_least(c.max_delay_ms * (v - c.min_value) / (c.center - c.min_value), c.min_delay_ms as int)
}

/// Delay for a reading `v` in `[center, max_value]`, mirrored: the nearer
/// `max_value`, the shorter.
pub open spec fn backward_delay(c: Calibration, v: int) -> int {
    at_least(c.max_delay_ms * (c.max_value - v) / (c.max_value - c.center), c.min_delay_ms as int)
}

/// The command that the raw sample `raw` asks for.
pub open spec fn command_for(c: Calibration, raw: int) -> Cmd {
    let v = clamp(c, raw);
    if in_dead_zone(c, v) {
        Cmd::Stop
    } else if v <= c.center {
        Cmd::Forward { delay_ms: forward_delay(c, v) as u32 }
    } else {
        Cmd::Backward { delay_ms: backward_delay(c, v) as u32 }
    }
}

/// A command's delay, if it moves, lies in `[lo, hi]`.
pub open spec fn delay_within(cmd: Cmd, lo: int, hi: int) -> bool {
    match cmd {
        Cmd::Stop => true,
        Cmd::Forward { delay_ms } => lo <= delay_ms <= hi,
        Cmd::Backward { delay_ms } => lo <= delay_ms <= hi,
    }
}

/// Scaling `a` by `b / d`, with `b` at most `d`, stays within `[0, a]` and
/// grows with `b`.
proof fn lemma_scale(a: int, b1: int, b2: int, d: int)
    requires
        0 <= a,
        0 <= b1 <= b2 <= d,
        0 < d,
    ensures
        0 <= a * b1 / d <= a * b2 / d <= a,
{
    lemma_mul_inequality(b1, b2, a);
    lemma_mul_inequality(b2, d, a);
    lemma_mul_inequality(0, b1, a);
    lemma_mul_is_commutative(a, b1);
    lemma_mul_is_commutative(a, b2);
    lemma_mul_is_commutative(a, d);
    lemma_div_is_ordered(a * b1, a * b2, d);
    lemma_div_is_ordered(a * b2, a * d, d);
    lemma_div_by_multiple(a, d);
    lemma_div_pos_is_pos(a * b1, d);
}

/// Every sample inside the dead zone decodes to `Stop`.
pub proof fn lemma_dead_zone_stops(c: Calibration, raw: int)
    requires
        valid_calibration(c),
        c.center - c.threshold <= raw <= c.center + c.threshold,
    ensures
        command_for(c, raw) == Cmd::Stop,
{
}

/// Full deflection to `min_value` asks for the fastest forward motion.
pub proof fn lemma_min_value_fastest(c: Calibration)
    requires
        valid_calibration(c),
    ensures
        command_for(c, c.min_value as int) == (Cmd::Forward { delay_ms: c.min_delay_ms }),
{
    lemma_scale(c.max_delay_ms as int, 0, 0, c.center - c.min_value);
}

/// Full deflection to `max_value` asks for the fastest backward motion.
pub proof fn lemma_max_value_fastest(c: Calibration)
    requires
        valid_calibration(c),
    ensures
        command_for(c, c.max_value as int) == (Cmd::Backward { delay_ms: c.min_delay_ms }),
{
    lemma_scale(c.max_delay_ms as int, 0, 0, c.max_value - c.center);
}

/// Between `min_value` and the dead zone, moving a sample further from the
/// centre never lengthens the forward delay.
pub proof fn lemma_forward_delay_monotonic(c: Calibration, a: int, b: int)
    requires
        valid_calibration(c),
        c.min_value < a < b < c.center - c.threshold,
    ensures
        command_for(c, a) == (Cmd::Forward { delay_ms: forward_delay(c, a) as u32 }),
        command_for(c, b) == (Cmd::Forward { delay_ms: forward_delay(c, b) as u32 }),
        c.min_delay_ms <= forward_delay(c, a) <= forward_delay(c, b) <= c.max_delay_ms,
{
    lemma_scale(c.max_delay_ms as int, a - c.min_value, b - c.min_value, c.center - c.min_value);
    lemma_scale(c.max_delay_ms as int, b - c.min_value, c.center - c.min_value, c.center - c.min_value);
}

/// Decodes raw samples of one axis under a calibration that was checked.
pub struct Decoder {
    cal: Calibration,
}

impl View for Decoder {
    type V = Calibration;

    closed spec fn view(&self) -> Calibration {
        self.cal
    }
}

impl Decoder {
    /// Checks the calibration; a decoder is made only from a consistent one.
    pub fn new(cal: Calibration) -> (r: Result<Decoder, CalibrationError>)
        ensures
            match calibration_error(cal) {
                Some(e) => r == Err::<Decoder, CalibrationError>(e),
                None => r is Ok && r->Ok_0@ == cal,
            },
    {
        if cal.min_value > cal.max_value {
            return Err(CalibrationError::InvertedRange);
        }
        if !(cal.threshold < cal.center && cal.min_value < cal.center - cal.threshold
            && cal.center < cal.max_value && cal.threshold < cal.max_value - cal.center) {
            return Err(CalibrationError::DeadZoneOutOfRange);
        }
        if cal.min_delay_ms > cal.max_delay_ms {
            return Err(CalibrationError::InvertedDelays);
        }
        Ok(Decoder { cal })
    }

    /// The calibration the decoder was made with.
    pub fn calibration(&self) -> (r: Calibration)
        ensures
            r == self@,
    {
        self.cal
    }

    /// Maps a reading already clamped into `[min_value, max_value]` to the
    /// delay its deflection asks for; `invert` selects the side above the centre.
    fn value_to_delay(&self, value: u32, invert: bool) -> (r: u32)
        requires
            valid_calibration(self@),
            self@.min_value <= value <= self@.max_value,
            !invert ==> value <= self@.center,
            invert ==> value >= self@.center,
        ensures
            !invert ==> r == forward_delay(self@, value as int),
            invert ==> r == backward_delay(self@, value as int),
            self@.min_delay_ms <= r <= self@.max_delay_ms,
    {
        let c = self.cal;
        let (span, span_end): (u32, u32) = if invert {
            (c.max_value - value, c.max_value - c.center)
        } else {
            (value - c.min_value, c.center - c.min_value)
        };
        proof {
            lemma_mul_upper_bound(c.max_delay_ms as int, u32::MAX as int, span as int, u32::MAX as int);
            lemma_scale(c.max_delay_ms as int, span as int, span_end as int, span_end as int);
        }
        let scaled: u64 = (c.max_delay_ms as u64) * (span as u64) / (span_end as u64);
        if scaled < c.min_delay_ms as u64 {
            c.min_delay_ms
        } else {
            scaled as u32
        }
    }

    /// The command for one raw sample: clamped into range, `Stop` in the
    /// dead zone, else a direction and a delay that shrinks with deflection.
    pub fn decode(&self, raw: u32) -> (r: Cmd)
        requires
            valid_calibration(self@),
        ensures
            r == command_for(self@, raw as int),
            delay_within(r, self@.min_delay_ms as int, self@.max_delay_ms as int),
    {
        let c = self.cal;
        let value = if raw < c.min_value {
            c.min_value
        } else if raw > c.max_value {
            c.max_value
        } else {
            raw
        };
        if c.center - c.threshold <= value && value <= c.center + c.threshold {
            Cmd::Stop
        } else if value <= c.center {
            Cmd::Forward { delay_ms: self.value_to_delay(value, false) }
        } else {
            Cmd::Backward { delay_ms: self.value_to_delay(value, true) }
        }
    }
}

} // verus!
