//! The PCA9539 (or TCA9539): a sixteen-pin I/O expander on the I2C bus, in
//! two banks of eight pins. This module holds what the driver computes: the
//! address of a register, the bytes of a write, and the new level of a
//! register when one pin changes. The transfers themselves are the
//! caller's.

use vstd::prelude::*;
use vstd::std_specs::convert::FromSpecImpl;
use crate::encoding::{bit_of, lemma_one_bit_changes, with_bit};

verus! {

/// The address of the expander where nothing else is configured.
pub const DEFAULT_ADDRESS: u8 = 0x74;

/// What can go wrong with the expander.
#[derive(Debug, Copy, Clone)]
pub enum Error<E> {
    /// Underlying bus error.
    BusError(E),
}

impl<E> From<E> for Error<E> {
    fn from(error: E) -> (wrapped: Error<E>) {
        Error::BusError(error)
    }
}

impl<E> FromSpecImpl<E> for Error<E> {
    open spec fn obeys_from_spec() -> bool {
        true
    }

    open spec fn from_spec(error: E) -> Error<E> {
        Error::BusError(error)
    }
}

/// Pin names.
#[derive(Debug, Copy, Clone, PartialEq, Eq, Structural)]
pub enum Pin {
    P00,
    P01,
    P02,
    P03,
    P04,
    P05,
    P06,
    P07,
}

impl Default for Pin {
    fn default() -> (pin: Pin)
        ensures
            pin == Pin::P00,
    {
        Pin::P00
    }
}

impl Pin {
    /// The place of the pin in its bank, from 0 to 7.
    pub open spec fn index_of(self) -> u8 {
        match self {
            Pin::P00 => 0,
            Pin::P01 => 1,
            Pin::P02 => 2,
            Pin::P03 => 3,
            Pin::P04 => 4,
            Pin::P05 => 5,
            Pin::P06 => 6,
            Pin::P07 => 7,
        }
    }

    /// The place of the pin in its bank, from 0 to 7.
    pub fn index(&self) -> (i: u8)
        ensures
            i == self.index_of(),
            i < 8,
    {
        match self {
            Pin::P00 => 0,
            Pin::P01 => 1,
            Pin::P02 => 2,
            Pin::P03 => 3,
            Pin::P04 => 4,
            Pin::P05 => 5,
            Pin::P06 => 6,
            Pin::P07 => 7,
        }
    }
}

/// The two banks of eight pins.
#[derive(Debug, Copy, Clone, PartialEq, Eq, Structural)]
pub enum Bank {
    Bank0,
    Bank1,
}

impl Bank {
    /// The number of the bank, 0 or 1.
    pub open spec fn index_of(self) -> u8 {
        match self {
            Bank::Bank0 => 0,
            Bank::Bank1 => 1,
        }
    }

    /// The number of the bank, 0 or 1.
    pub fn index(&self) -> (i: u8)
        ensures
            i == self.index_of(),
    {
        match self {
            Bank::Bank0 => 0,
            Bank::Bank1 => 1,
        }
    }
}

/// The four kinds of register; each exists once per bank.
#[derive(Debug, Copy, Clone, PartialEq, Eq, Structural)]
pub enum RegisterType {
    /// 1 = high
    InputLevel,
    /// 1 = high, default 1
    OutputLevel,
    /// 1 = inverted, default 0
    PolarityInverted,
    /// 1 = input, default 1
    Direction,
}

impl RegisterType {
    /// The address of the register of this kind in bank 0.
    pub open spec fn base_of(self) -> u8 {
        match self {
            RegisterType::InputLevel => 0,
            RegisterType::OutputLevel => 2,
            RegisterType::PolarityInverted => 4,
            RegisterType::Direction => 6,
        }
    }

    /// The address of the register of this kind in bank 0.
    pub fn base(&self) -> (address: u8)
        ensures
            address == self.base_of(),
    {
        match self {
            RegisterType::InputLevel => 0,
            RegisterType::OutputLevel => 2,
            RegisterType::PolarityInverted => 4,
            RegisterType::Direction => 6,
        }
    }
}

/// The address of a register: that of its kind, plus one in bank 1.
pub open spec fn register_address_of(reg: RegisterType, bank: Bank) -> u8 {
    (reg.base_of() + bank.index_of()) as u8
}

/// PCA9539/TCA9539 is a 16-pin I2C I/O Expander with I2C Interface.
#[derive(Clone, Copy, Debug)]
pub struct Pca9539<I2C> {
    i2c: I2C,
    address: u8,
}

impl<I2C> Pca9539<I2C> {
    /// The I2C address of the expander.
    pub closed spec fn address_of(&self) -> u8 {
        self.address
    }

    /// The bus that the expander is reached through.
    pub closed spec fn bus_of(&self) -> I2C {
        self.i2c
    }

    /// Creates an expander with the default configuration.
    pub fn new_default<E>(i2c: I2C) -> (expander: Result<Self, Error<E>>)
        ensures
            expander matches Ok(e) && e.address_of() == DEFAULT_ADDRESS && e.bus_of() == i2c,
    {
        Self::new(i2c, DEFAULT_ADDRESS)
    }

    /// Creates an expander with specific address.
    pub fn new<E>(i2c: I2C, address: u8) -> (expander: Result<Self, Error<E>>)
        ensures
            expander matches Ok(e) && e.address_of() == address && e.bus_of() == i2c,
    {
        Ok(Self { i2c, address })
    }

    /// Return the I2C address
    pub fn address(&self) -> (address: u8)
        ensures
            address == self.address_of(),
    {
        self.address
    }

    /// Gives the bus back.
    pub fn release(self) -> (i2c: I2C)
        ensures
            i2c == self.bus_of(),
    {
        self.i2c
    }

    /// The address of a register.
    pub fn register_address(reg: RegisterType, bank: Bank) -> (address: u8)
        ensures
            address == register_address_of(reg, bank),
            address < 8,
    {
        reg.base() + bank.index()
    }

    /// The two bytes that write `data` to a register: its address, then the
    /// data.
    pub fn write_register_bytes(reg: RegisterType, bank: Bank, data: u8) -> (bytes: [u8; 2])
        ensures
            bytes@ == seq![register_address_of(reg, bank), data],
    {
        let bytes: [u8; 2] = [Self::register_address(reg, bank), data];
        assert(bytes@ =~= seq![register_address_of(reg, bank), data]);
        bytes
    }

    /// The byte to write back to a register that read `old_state`, so that
    /// the pin is at `state` and every other pin is where it was.
    pub fn write_pin_value(old_state: u8, pin: Pin, state: bool) -> (new_state: u8)
        ensures
            new_state == with_bit(old_state, pin.index_of(), state),
            forall|other: u8|
                other < 8 ==> #[trigger] bit_of(new_state, other) == (if other
                    == pin.index_of() {
                    state
                } else {
                    bit_of(old_state, other)
                }),
    {
        let place: u8 = pin.index();
        let bit: u8 = if state {
            1u8
        } else {
            0u8
        };
        let new_state: u8 = (old_state & !(1u8 << place)) | (bit << place);
        proof {
            lemma_one_bit_changes(old_state, place, state);
            assert(new_state == with_bit(old_state, place, state));
            assert forall|other: u8| other < 8 implies #[trigger] bit_of(new_state, other)
                == (if other == place {
                state
            } else {
                bit_of(old_state, other)
            }) by {
                assert(bit_of(with_bit(old_state, place, state), other) == (if other
                    == place {
                    state
                } else {
                    bit_of(old_state, other)
                }));
            }
        }
        new_state
    }

    /// The level of a pin in the byte read from a register.
    pub fn read_pin_value(data: u8, pin: Pin) -> (level: bool)
        ensures
            level == bit_of(data, pin.index_of()),
    {
        let place: u8 = pin.index();
        (data & (1u8 << place)) > 0
    }
}

} // verus!
