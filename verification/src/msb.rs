//! The sensor boards at the four corners of the vehicle. The boards are
//! alike and share one bus: each finds out at boot where it is mounted and
//! shifts the identifiers of the frames it sends by an offset of its own.

use vstd::prelude::*;
use vstd::std_specs::convert::FromSpecImpl;
use crate::encoding::{
    be_bytes_of_i16,
    be_bytes_of_u16,
    i16_to_be_bytes,
    u16_to_be_bytes,
};
use crate::frame::{priority_of, BusFrame, FrameContent, Id, RawId, StandardId, STANDARD_ID_MAX};

verus! {

/// Identifier of the temperature and humidity broadcast.
pub const TEMPERATURE_SEND_MSG_ID: u16 = 0x602;

/// Identifier of the acceleration broadcast.
pub const IMU_SEND_MSG_ID: u16 = 0x603;

/// Identifier of the rotation rate broadcast.
pub const GYRO_SEND_MSG_ID: u16 = 0x604;

/// Identifier of the broadcast of the second and third analog channel.
pub const SHOCKPOT_SEND_MSG_ID: u16 = 0x605;

/// Identifier of the broadcast of the first analog channel.
pub const STRAIN_SEND_MSG_ID: u16 = 0x606;

/// Identifier of the distance broadcast.
pub const TOF_SEND_MSG_ID: u16 = 0x607;

/// Number of steps of the indicator after which the pattern repeats.
pub const LED_PATTERN_LENGTH: u8 = 8;

/// Where on the vehicle a board is mounted. The front left board is the
/// reference: it sends every identifier as it is.
#[derive(Clone, Copy, Debug, PartialEq, Eq, Structural)]
pub enum DeviceLocation {
    FrontLeft,
    BackLeft,
    BackRight,
    FrontRight,
}

/// The location that the three strap pins stand for.
pub open spec fn location_of(straps: (bool, bool, bool)) -> DeviceLocation {
    if straps.0 && straps.1 {
        DeviceLocation::FrontLeft
    } else if straps.0 && !straps.1 {
        DeviceLocation::FrontRight
    } else if !straps.1 && straps.2 {
        DeviceLocation::BackLeft
    } else if !straps.0 && !straps.2 {
        DeviceLocation::BackRight
    } else {
        DeviceLocation::FrontLeft
    }
}

impl From<(bool, bool, bool)> for DeviceLocation {
    /// Reads the location off the three strap pins.
    fn from(value: (bool, bool, bool)) -> (location: DeviceLocation) {
        if value.0 && value.1 {
            DeviceLocation::FrontLeft
        } else if value.0 && !value.1 {
            DeviceLocation::FrontRight
        } else if !value.1 && value.2 {
            DeviceLocation::BackLeft
        } else if !value.0 && !value.2 {
            DeviceLocation::BackRight
        } else {
            DeviceLocation::FrontLeft
        }
    }
}

impl FromSpecImpl<(bool, bool, bool)> for DeviceLocation {
    open spec fn obeys_from_spec() -> bool {
        true
    }

    open spec fn from_spec(value: (bool, bool, bool)) -> DeviceLocation {
        location_of(value)
    }
}

/// The levels of the two indicator lights of a board: `true` is high.
#[derive(Clone, Copy, Debug, PartialEq, Eq, Structural)]
pub struct LedLevels {
    pub led1: bool,
    pub led2: bool,
}

impl DeviceLocation {
    /// What the board adds to every identifier that it sends.
    pub open spec fn offset_of(self) -> u16 {
        match self {
            DeviceLocation::FrontLeft => 0,
            DeviceLocation::BackLeft => 0x40,
            DeviceLocation::BackRight => 0x60,
            DeviceLocation::FrontRight => 0x20,
        }
    }

    /// The identifier under which the board sends a frame that is meant for
    /// `base`, as a number. An extended identifier counts by its base part.
    pub open spec fn remapped(self, base: RawId) -> int {
        priority_of(base) + self.offset_of()
    }

    /// The board can send under `base`: the shifted identifier still has
    /// eleven bits.
    pub open spec fn can_remap(self, base: RawId) -> bool {
        self.remapped(base) <= STANDARD_ID_MAX
    }

    /// The two lights at step `step`: on the first of every eight steps they
    /// show the location, on the others the opposite.
    pub open spec fn leds_at(self, step: u8) -> LedLevels {
        let mark: LedLevels = match self {
            DeviceLocation::FrontLeft => LedLevels { led1: false, led2: false },
            DeviceLocation::FrontRight => LedLevels { led1: false, led2: true },
            DeviceLocation::BackLeft => LedLevels { led1: true, led2: false },
            DeviceLocation::BackRight => LedLevels { led1: true, led2: true },
        };
        if step % LED_PATTERN_LENGTH == 0 {
            mark
        } else {
            LedLevels { led1: !mark.led1, led2: !mark.led2 }
        }
    }

    /// What the board adds to every identifier that it sends.
    pub fn offset(&self) -> (offset: u16)
        ensures
            offset == self.offset_of(),
    {
        match self {
            DeviceLocation::FrontLeft => 0,
            DeviceLocation::BackLeft => 0x40,
            DeviceLocation::BackRight => 0x60,
            DeviceLocation::FrontRight => 0x20,
        }
    }

    /// The identifier under which the board sends a frame meant for
    /// `base_id`, where the shifted identifier has eleven bits, and `None`
    /// where it has not.
    pub fn checked_can_id(&self, base_id: &Id) -> (id: Option<StandardId>)
        ensures
            match id {
                Some(shifted) => self.can_remap(base_id@) && shifted@ == self.remapped(base_id@),
                None => !self.can_remap(base_id@),
            },
    {
        let base: u16 = match base_id {
            Id::Standard(standard) => standard.as_raw(),
            Id::Extended(extended) => extended.standard_id().as_raw(),
        };
        StandardId::new(base + self.offset())
    }

    /// The identifier under which the board sends a frame meant for
    /// `base_id`. The shifted identifier must have eleven bits.
    pub fn get_can_id(&self, base_id: &Id) -> (id: StandardId)
        requires
            self.can_remap(base_id@),
        ensures
            id@ == self.remapped(base_id@),
    {
        self.checked_can_id(base_id).unwrap()
    }

    /// The frame as the board sends it: under its shifted identifier, with
    /// the payload as it is. The shifted identifier must have eleven bits.
    pub fn remap_frame(&self, frame: &BusFrame) -> (sent: BusFrame)
        requires
            self.can_remap(frame@.id),
        ensures
            sent@.id == RawId::Standard(self.remapped(frame@.id) as u16),
            sent@.payload == frame@.payload,
    {
        let base: Id = frame.id();
        let id: StandardId = self.get_can_id(&base);
        BusFrame::new_standard(id, frame.data()).unwrap()
    }

    /// The levels of the two lights at step `step` of the indicator, and the
    /// step that follows. The step counts up and wraps around.
    pub fn control_leds_step(&self, step: u8) -> (next: (LedLevels, u8))
        ensures
            next.0 == self.leds_at(step),
            next.1 == (if step == u8::MAX {
                0
            } else {
                step + 1
            }),
    {
        let mark: LedLevels = match self {
            DeviceLocation::FrontLeft => LedLevels { led1: false, led2: false },
            DeviceLocation::FrontRight => LedLevels { led1: false, led2: true },
            DeviceLocation::BackLeft => LedLevels { led1: true, led2: false },
            DeviceLocation::BackRight => LedLevels { led1: true, led2: true },
        };
        let levels: LedLevels = if step % LED_PATTERN_LENGTH == 0 {
            mark
        } else {
            LedLevels { led1: !mark.led1, led2: !mark.led2 }
        };
        (levels, step.wrapping_add(1))
    }
}

/// Two boards at different locations never send under the same identifier
/// when they mean the same one, and the front left board sends every
/// identifier as it is.
pub proof fn lemma_remap_injective(a: DeviceLocation, b: DeviceLocation, base: RawId)
    ensures
        a != b ==> a.remapped(base) != b.remapped(base),
        DeviceLocation::FrontLeft.remapped(base) == priority_of(base),
{
}

/// Every reading of the strap pins gives a location, and every location has
/// a reading that gives it.
pub proof fn lemma_every_location_has_straps(location: DeviceLocation)
    ensures
        exists|straps: (bool, bool, bool)| #[trigger] location_of(straps) == location,
{
    match location {
        DeviceLocation::FrontLeft => {
            assert(location_of((true, true, false)) == location);
        },
        DeviceLocation::FrontRight => {
            assert(location_of((true, false, false)) == location);
        },
        DeviceLocation::BackLeft => {
            assert(location_of((false, false, true)) == location);
        },
        DeviceLocation::BackRight => {
            assert(location_of((false, false, false)) == location);
        },
    }
}

/// The payload of the temperature frame: the temperature, then the
/// humidity, two bytes each.
pub open spec fn temperature_payload(temperature: i16, humidity: u16) -> Seq<u8> {
    be_bytes_of_i16(temperature) + be_bytes_of_u16(humidity)
}

/// The payload of a frame that holds a reading along three axes, two bytes
/// each.
pub open spec fn axes_payload(x: i16, y: i16, z: i16) -> Seq<u8> {
    be_bytes_of_i16(x) + be_bytes_of_i16(y) + be_bytes_of_i16(z)
}

fn standard_frame(raw_id: u16, data: &[u8]) -> (frame: BusFrame)
    requires
        raw_id <= STANDARD_ID_MAX,
        data@.len() <= 8,
    ensures
        frame@ == (FrameContent { id: RawId::Standard(raw_id), payload: data@ }),
{
    let id: StandardId = StandardId::new(raw_id).unwrap();
    BusFrame::new_standard(id, data).unwrap()
}

/// Makes the temperature frame from a temperature and a humidity reading.
pub fn temperature_frame(temperature: i16, humidity: u16) -> (frame: BusFrame)
    ensures
        frame@.id == RawId::Standard(TEMPERATURE_SEND_MSG_ID),
        frame@.payload == temperature_payload(temperature, humidity),
{
    let temp: [u8; 2] = i16_to_be_bytes(temperature);
    let hum: [u8; 2] = u16_to_be_bytes(humidity);
    let bits: [u8; 4] = [temp[0], temp[1], hum[0], hum[1]];
    assert(bits@ =~= temperature_payload(temperature, humidity));
    standard_frame(TEMPERATURE_SEND_MSG_ID, bits.as_slice())
}

fn axes_bytes(x: i16, y: i16, z: i16) -> (bits: [u8; 6])
    ensures
        bits@ == axes_payload(x, y, z),
{
    let xs: [u8; 2] = i16_to_be_bytes(x);
    let ys: [u8; 2] = i16_to_be_bytes(y);
    let zs: [u8; 2] = i16_to_be_bytes(z);
    let bits: [u8; 6] = [xs[0], xs[1], ys[0], ys[1], zs[0], zs[1]];
    assert(bits@ =~= axes_payload(x, y, z));
    bits
}

/// Makes the acceleration frame from a reading in thousandths along the
/// three axes.
pub fn accel_frame(x: i16, y: i16, z: i16) -> (frame: BusFrame)
    ensures
        frame@.id == RawId::Standard(IMU_SEND_MSG_ID),
        frame@.payload == axes_payload(x, y, z),
{
    let bits: [u8; 6] = axes_bytes(x, y, z);
    standard_frame(IMU_SEND_MSG_ID, bits.as_slice())
}

/// Makes the rotation rate frame from a reading in thousandths about the
/// three axes.
pub fn gyro_frame(x: i16, y: i16, z: i16) -> (frame: BusFrame)
    ensures
        frame@.id == RawId::Standard(GYRO_SEND_MSG_ID),
        frame@.payload == axes_payload(x, y, z),
{
    let bits: [u8; 6] = axes_bytes(x, y, z);
    standard_frame(GYRO_SEND_MSG_ID, bits.as_slice())
}

/// Makes the distance frame from a range in millimetres.
pub fn tof_frame(range: u16) -> (frame: BusFrame)
    ensures
        frame@.id == RawId::Standard(TOF_SEND_MSG_ID),
        frame@.payload == be_bytes_of_u16(range),
{
    let bits: [u8; 2] = u16_to_be_bytes(range);
    standard_frame(TOF_SEND_MSG_ID, bits.as_slice())
}

/// Makes the two frames of one round of analog samples: the first channel
/// alone, then the second and third together.
pub fn adc_frames(first: u16, second: u16, third: u16) -> (frames: (BusFrame, BusFrame))
    ensures
        frames.0@.id == RawId::Standard(STRAIN_SEND_MSG_ID),
        frames.0@.payload == be_bytes_of_u16(first),
        frames.1@.id == RawId::Standard(SHOCKPOT_SEND_MSG_ID),
        frames.1@.payload == be_bytes_of_u16(second) + be_bytes_of_u16(third),
{
    let one: [u8; 2] = u16_to_be_bytes(first);
    let two: [u8; 2] = u16_to_be_bytes(second);
    let three: [u8; 2] = u16_to_be_bytes(third);
    let strain_bits: [u8; 4] = [two[0], two[1], three[0], three[1]];
    assert(strain_bits@ =~= be_bytes_of_u16(second) + be_bytes_of_u16(third));
    (
        standard_frame(STRAIN_SEND_MSG_ID, one.as_slice()),
        standard_frame(SHOCKPOT_SEND_MSG_ID, strain_bits.as_slice()),
    )
}

} // verus!
