//! Reading actuator state back from the autopilot's servo output report.

use crate::api::ServoChannel;
use vstd::prelude::*;

verus! {

/// The sixteen raw servo outputs of one servo-output report.
#[derive(Debug, Clone, Copy, PartialEq, Eq, Structural)]
pub struct ServoOutputRaw {
    pub servo1_raw: u16,
    pub servo2_raw: u16,
    pub servo3_raw: u16,
    pub servo4_raw: u16,
    pub servo5_raw: u16,
    pub servo6_raw: u16,
    pub servo7_raw: u16,
    pub servo8_raw: u16,
    pub servo9_raw: u16,
    pub servo10_raw: u16,
    pub servo11_raw: u16,
    pub servo12_raw: u16,
    pub servo13_raw: u16,
    pub servo14_raw: u16,
    pub servo15_raw: u16,
    pub servo16_raw: u16,
}

/// The raw output the report carries for a channel; the report covers the
/// first sixteen channels only.
pub open spec fn output_raw_spec(data: ServoOutputRaw, channel: ServoChannel) -> Option<u16> {
    match channel {
        ServoChannel::SERVO1 => Some(data.servo1_raw),
        ServoChannel::SERVO2 => Some(data.servo2_raw),
        ServoChannel::SERVO3 => Some(data.servo3_raw),
        ServoChannel::SERVO4 => Some(data.servo4_raw),
        ServoChannel::SERVO5 => Some(data.servo5_raw),
        ServoChannel::SERVO6 => Some(data.servo6_raw),
        ServoChannel::SERVO7 => Some(data.servo7_raw),
        ServoChannel::SERVO8 => Some(data.servo8_raw),
        ServoChannel::SERVO9 => Some(data.servo9_raw),
        ServoChannel::SERVO10 => Some(data.servo10_raw),
        ServoChannel::SERVO11 => Some(data.servo11_raw),
        ServoChannel::SERVO12 => Some(data.servo12_raw),
        ServoChannel::SERVO13 => Some(data.servo13_raw),
        ServoChannel::SERVO14 => Some(data.servo14_raw),
        ServoChannel::SERVO15 => Some(data.servo15_raw),
        ServoChannel::SERVO16 => Some(data.servo16_raw),
        _ => None,
    }
}

/// Reads a channel's raw output from the report.
pub fn get_output_raw_from_channel(data: &ServoOutputRaw, channel: ServoChannel) -> (r: Option<
    u16,
>)
    ensures
        r == output_raw_spec(*data, channel),
{
    match channel {
        ServoChannel::SERVO1 => Some(data.servo1_raw),
        ServoChannel::SERVO2 => Some(data.servo2_raw),
        ServoChannel::SERVO3 => Some(data.servo3_raw),
        ServoChannel::SERVO4 => Some(data.servo4_raw),
        ServoChannel::SERVO5 => Some(data.servo5_raw),
        ServoChannel::SERVO6 => Some(data.servo6_raw),
        ServoChannel::SERVO7 => Some(data.servo7_raw),
        ServoChannel::SERVO8 => Some(data.servo8_raw),
        ServoChannel::SERVO9 => Some(data.servo9_raw),
        ServoChannel::SERVO10 => Some(data.servo10_raw),
        ServoChannel::SERVO11 => Some(data.servo11_raw),
        ServoChannel::SERVO12 => Some(data.servo12_raw),
        ServoChannel::SERVO13 => Some(data.servo13_raw),
        ServoChannel::SERVO14 => Some(data.servo14_raw),
        ServoChannel::SERVO15 => Some(data.servo15_raw),
        ServoChannel::SERVO16 => Some(data.servo16_raw),
        _ => None,
    }
}

/// The position of a raw output within its configured range, as a rounded
/// percentage (half rounds up); a degenerate range reads as zero.
pub open spec fn percentage_spec(value: u16, min: u16, max: u16) -> u16 {
    if max == min {
        0
    } else {
        let clamped = if value < min {
            min
        } else if value > max {
            max
        } else {
            value
        };
        ((200 * (clamped - min) + (max - min)) / (2 * (max - min))) as u16
    }
}

/// Maps a raw output into its configured range as a percentage from 0 to
/// 100, clamping outside values to the nearest bound.  An inverted range
/// is a caller error.
pub fn percentage_within_range(value: u16, min: u16, max: u16) -> (r: u16)
    requires
        min <= max,
    ensures
        r == percentage_spec(value, min, max),
        r <= 100,
{
    if max == min {
        return 0;
    }
    let clamped = if value < min {
        min
    } else if value > max {
        max
    } else {
        value
    };
    let span = (max - min) as u32;
    let num = 200u32 * ((clamped - min) as u32) + span;
    let r = num / (2 * span);
    proof {
        assert(r <= 100) by {
            assert(num < ((2 * span) as int) * 101);
            vstd::arithmetic::div_mod::lemma_multiply_divide_lt(
                num as int,
                (2 * span) as int,
                101,
            );
        };
    }
    r as u16
}

} // verus!
