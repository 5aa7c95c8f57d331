//! The LSM6DSO: an inertial sensor with an accelerometer, a gyroscope and a
//! thermometer on the I2C bus. This module holds what the driver computes
//! on whole numbers: whether the chip is the right one, the new value of a
//! register when some of its bits change, and the raw readings as signed
//! numbers. The transfers, and the conversion to physical units, are the
//! caller's.

use vstd::prelude::*;

verus! {

/// Value of the identification register of the chip.
pub const CHIP_ID: u8 = 0x6C;

/// Bit of the status register that tells of new accelerometer data.
pub const STATUS_ACCEL_READY: u8 = 0b01;

/// Bit of the status register that tells of new gyroscope data.
pub const STATUS_GYRO_READY: u8 = 0b10;

/// Enum containing all possible types of errors when interacting with the IMU
#[derive(Debug)]
pub enum Error<E> {
    CommunicationError(E),
    ChipDetectFailed,
    RegisterReadFailed,
}

/// The value of a register after the bits of `new_value` under `mask`, moved
/// up by `shift` places, have taken the place of what was there.
pub open spec fn write_bits_of(current_value: u8, new_value: u8, mask: u8, shift: u8) -> u8 {
    (current_value & !(mask << shift)) | ((new_value & mask) << shift)
}

/// The signed number that two bytes stand for in two's complement, least
/// significant byte first.
pub open spec fn le_i16_of(lo: u8, hi: u8) -> int {
    let unsigned: int = hi * 0x100 + lo;
    if unsigned >= 0x8000 {
        unsigned - 0x1_0000
    } else {
        unsigned
    }
}

/// 6-DoF IMU accelerometer + gyro
#[derive(Debug)]
pub struct Lsm6dso<I2C> {
    i2c: I2C,
    addr: u8,
}

impl<I2C> Lsm6dso<I2C> {
    /// The I2C address of the sensor.
    pub closed spec fn address_of(&self) -> u8 {
        self.addr
    }

    /// The bus that the sensor is reached through.
    pub closed spec fn bus_of(&self) -> I2C {
        self.i2c
    }

    /// Create an instance of the Lsm6dso driver from the value that the
    /// identification register of the device returned. If that is not the
    /// value of this chip, the device was not detected and an error is
    /// returned.
    pub fn new<E>(i2c: I2C, addr: u8, chip_id: u8) -> (sensor: Result<Self, Error<E>>)
        ensures
            match sensor {
                Ok(s) => chip_id == CHIP_ID && s.address_of() == addr && s.bus_of() == i2c,
                Err(e) => chip_id != CHIP_ID && e is ChipDetectFailed,
            },
    {
        if Self::check(chip_id) {
            Ok(Lsm6dso { i2c, addr })
        } else {
            Err(Error::ChipDetectFailed)
        }
    }

    /// The I2C address of the sensor.
    pub fn address(&self) -> (addr: u8)
        ensures
            addr == self.address_of(),
    {
        self.addr
    }

    /// Gives the bus back.
    pub fn release(self) -> (i2c: I2C)
        ensures
            i2c == self.bus_of(),
    {
        self.i2c
    }

    /// Whether the identification register holds the value of this chip.
    pub fn check(chip_id: u8) -> (detected: bool)
        ensures
            detected == (chip_id == CHIP_ID),
    {
        chip_id == CHIP_ID
    }

    /// Whether the status register tells of new accelerometer data.
    pub fn accel_data_available(status: u8) -> (available: bool)
        ensures
            available == (status & STATUS_ACCEL_READY != 0),
    {
        status & STATUS_ACCEL_READY != 0
    }

    /// Whether the status register tells of new gyroscope data.
    pub fn gyro_data_available(status: u8) -> (available: bool)
        ensures
            available == (status & STATUS_GYRO_READY != 0),
    {
        status & STATUS_GYRO_READY != 0
    }

    /// The value to write back to a register that read `current_value`, so
    /// that the bits under `mask`, moved up by `shift` places, hold
    /// `new_value`. The bits outside the moved mask stay as they were.
    pub fn write_bits(current_value: u8, new_value: u8, mask: u8, shift: u8) -> (modified_value:
        u8)
        requires
            shift < 8,
        ensures
            modified_value == write_bits_of(current_value, new_value, mask, shift),
            modified_value & !(mask << shift) == current_value & !(mask << shift),
    {
        let modified_value: u8 = (current_value & !(mask << shift)) | ((new_value & mask)
            << shift);
        proof {
            lemma_write_bits_keeps_the_rest(current_value, new_value, mask, shift);
        }
        modified_value
    }

    /// The value to write back to a register so that the bit at place
    /// `shift` holds the lowest bit of `value`.
    pub fn write_bit(current_value: u8, value: u8, shift: u8) -> (modified_value: u8)
        requires
            shift < 8,
        ensures
            modified_value == write_bits_of(current_value, value, 0x01, shift),
    {
        Self::write_bits(current_value, value, 0x01, shift)
    }

    /// The raw reading along the three axes: three signed numbers of two
    /// bytes each, least significant byte first.
    pub fn raw_axes(res: &[u8; 6]) -> (axes: (i16, i16, i16))
        ensures
            axes.0 == le_i16_of(res@[0], res@[1]),
            axes.1 == le_i16_of(res@[2], res@[3]),
            axes.2 == le_i16_of(res@[4], res@[5]),
    {
        (le_i16(res[0], res[1]), le_i16(res[2], res[3]), le_i16(res[4], res[5]))
    }

    /// The raw temperature: a signed number of two bytes, least significant
    /// byte first, in sixteenths of a degree above 25 degrees Celsius.
    pub fn raw_temperature(data: &[u8; 2]) -> (temperature: i16)
        ensures
            temperature == le_i16_of(data@[0], data@[1]),
    {
        le_i16(data[0], data[1])
    }
}

fn le_i16(lo: u8, hi: u8) -> (value: i16)
    ensures
        value == le_i16_of(lo, hi),
{
    let unsigned: u16 = (hi as u16) * 0x100 + (lo as u16);
    if unsigned >= 0x8000 {
        ((unsigned - 0x8000) as i16) + i16::MIN
    } else {
        unsigned as i16
    }
}

/// Writing some bits of a register leaves the bits outside the moved mask as
/// they were.
pub proof fn lemma_write_bits_keeps_the_rest(current_value: u8, new_value: u8, mask: u8, shift: u8)
    requires
        shift < 8,
    ensures
        write_bits_of(current_value, new_value, mask, shift) & !(mask << shift) == current_value
            & !(mask << shift),
{
    assert(((current_value & !(mask << shift)) | ((new_value & mask) << shift)) & !(mask << shift)
        == current_value & !(mask << shift)) by (bit_vector)
        requires
            shift < 8,
    ;
}

} // verus!
