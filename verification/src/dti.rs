//! The drivetrain telemetry decoder: from the motor controller's electrical
//! RPM to the speed of the vehicle in miles per hour.
//!
//! The arithmetic is done in whole numbers, so that the result is the same
//! on every machine: the circle constant is taken as a fraction with
//! eighteen decimal places.

use vstd::prelude::*;
use crate::can_handler::DTI_RPM_MSG_ID;
use crate::frame::{BusFrame, FrameContent, Id, RawId};

verus! {

/// Pole pairs of the motor: electrical revolutions per mechanical one.
pub const POLE_PAIRS: i32 = 10;

/// The gear ratio is `GEAR_RATIO_NUM / GEAR_RATIO_DEN` motor revolutions per
/// wheel revolution.
pub const GEAR_RATIO_NUM: u128 = 47;

/// Denominator of the gear ratio.
pub const GEAR_RATIO_DEN: u128 = 13;

/// Diameter of the tire in inches.
pub const TIRE_DIAMETER: u128 = 16;

/// Inches in a mile.
pub const INCHES_PER_MILE: u128 = 63360;

/// Minutes in an hour.
pub const MINUTES_PER_HOUR: u128 = 60;

/// The circle constant times `PI_SCALE`, rounded down.
pub const PI_SCALED: u128 = 3_141_592_653_589_793_238;

/// The scale of `PI_SCALED`: eighteen decimal places.
pub const PI_SCALE: u128 = 1_000_000_000_000_000_000;

/// Miles per hour for each revolution per minute on the motor side, as the
/// fraction `MPH_NUMERATOR / MPH_DENOMINATOR`: the gear ratio, the minutes in
/// an hour, the circumference of the tire and the inches in a mile,
/// multiplied out.
pub const MPH_NUMERATOR: u128 = 39_207_076_316_800_619_610_240;

/// Denominator of the fraction of miles per hour for each revolution per
/// minute.
pub const MPH_DENOMINATOR: u128 = 2_977_920_000_000_000_000_000_000;

/// The byte at place `i` of a payload, where a byte that the payload does
/// not hold counts as zero.
pub open spec fn byte_or_zero(payload: Seq<u8>, i: int) -> int {
    if 0 <= i < payload.len() {
        payload[i] as int
    } else {
        0
    }
}

/// The electrical RPM in a telemetry payload: its first four bytes as a
/// signed number, most significant byte first.
pub open spec fn erpm_of(payload: Seq<u8>) -> int {
    let unsigned: int = byte_or_zero(payload, 0) * 0x100_0000 + byte_or_zero(payload, 1) * 0x1_0000
        + byte_or_zero(payload, 2) * 0x100 + byte_or_zero(payload, 3);
    if unsigned >= 0x8000_0000 {
        unsigned - 0x1_0000_0000
    } else {
        unsigned
    }
}

/// The quotient of `a` by a positive `b`, rounded towards zero.
pub open spec fn div_towards_zero(a: int, b: int) -> int {
    if a >= 0 {
        a / b
    } else {
        -((-a) / b)
    }
}

/// The speed in miles per hour of a wheel that turns `rpm` times a minute
/// on the motor side of the gearbox, rounded towards zero:
/// `rpm / gear ratio * 60 * (tire diameter / 63360) * pi`.
pub open spec fn mph_of_rpm(rpm: int) -> int {
    if rpm >= 0 {
        rpm * MPH_NUMERATOR / (MPH_DENOMINATOR as int)
    } else {
        -((-rpm) * MPH_NUMERATOR / (MPH_DENOMINATOR as int))
    }
}

/// The fraction is what the mechanical constants multiply out to.
pub proof fn lemma_mph_fraction()
    ensures
        MPH_NUMERATOR == GEAR_RATIO_DEN * MINUTES_PER_HOUR * TIRE_DIAMETER * PI_SCALED,
        MPH_DENOMINATOR == GEAR_RATIO_NUM * INCHES_PER_MILE * PI_SCALE,
{
}

/// The speed in miles per hour for an electrical RPM.
pub open spec fn speed_of(erpm: int) -> int {
    mph_of_rpm(div_towards_zero(erpm, POLE_PAIRS as int))
}

/// Turning the motor the other way gives the same speed backwards, and a
/// motor at rest gives none.
pub proof fn lemma_speed_is_odd(erpm: int)
    ensures
        speed_of(-erpm) == -speed_of(erpm),
        speed_of(0) == 0,
{
}

/// What the decoder publishes for a frame: the speed, for a telemetry frame,
/// and nothing for any other frame.
pub open spec fn published_speed(frame: FrameContent) -> Option<int> {
    if frame.id == RawId::Standard(DTI_RPM_MSG_ID) {
        Some(speed_of(erpm_of(frame.payload)))
    } else {
        None
    }
}

fn byte_at(data: &[u8], i: usize) -> (b: u32)
    ensures
        b == byte_or_zero(data@, i as int),
        b <= 0xFF,
{
    if i < data.len() {
        data[i] as u32
    } else {
        0
    }
}

/// Decodes the electrical RPM from a telemetry payload.
pub fn decode_erpm(data: &[u8]) -> (erpm: i32)
    ensures
        erpm == erpm_of(data@),
{
    let unsigned: u32 = byte_at(data, 0) * 0x100_0000 + byte_at(data, 1) * 0x1_0000 + byte_at(
        data,
        2,
    ) * 0x100 + byte_at(data, 3);
    if unsigned >= 0x8000_0000 {
        ((unsigned - 0x8000_0000) as i32) + i32::MIN
    } else {
        unsigned as i32
    }
}

/// Converts an electrical RPM to the speed in miles per hour, rounded
/// towards zero.
pub fn speed_mph(erpm: i32) -> (mph: i32)
    ensures
        mph == speed_of(erpm as int),
{
    let negative: bool = erpm < 0;
    let magnitude: u128 = if negative {
        (-(erpm as i64)) as u128
    } else {
        erpm as u128
    };
    let rpm: u128 = magnitude / (POLE_PAIRS as u128);
    let whole: u128 = rpm * MPH_NUMERATOR / MPH_DENOMINATOR;
    if negative {
        -(whole as i32)
    } else {
        whole as i32
    }
}

/// Handles one frame from the telemetry mailbox: the speed to publish for a
/// telemetry frame, nothing for any other frame.
pub fn on_frame(frame: &BusFrame) -> (speed: Option<i32>)
    ensures
        match speed {
            Some(mph) => published_speed(frame@) == Some(mph as int),
            None => published_speed(frame@) is None,
        },
{
    match frame.id() {
        Id::Standard(id) => {
            if id.as_raw() == DTI_RPM_MSG_ID {
                Some(speed_mph(decode_erpm(frame.data())))
            } else {
                None
            }
        },
        Id::Extended(_) => None,
    }
}

} // verus!
