//! The I2C peripheral: standard mode and fast mode.

use vstd::prelude::*;

use crate::gpio::{OpenDrain, Pin, PinA, PinMode, SetAlternate};
use crate::sealed::Sealed;

pub mod bus;
pub mod check;
pub mod init;
pub mod laws;
pub mod mode;
pub mod observe;
pub mod register;
pub mod release;
pub mod transfer;
pub mod write_laws;

pub use bus::{I2c, Instance, I2C1, I2C2, I2C3};
pub use mode::{DutyCycle, Mode};

verus! {

/// The clock line.
#[derive(Debug)]
pub struct Scl;

/// The data line.
#[derive(Debug)]
pub struct Sda;

impl Sealed for Scl {

}

impl Sealed for Sda {

}

/// A line of a bus.
#[derive(Clone, Copy, PartialEq, Eq, Structural, Debug)]
pub enum Line {
    Scl,
    Sda,
}

/// The pins of a bus.
pub trait Pins<I2C>: Sized {
    /// The pins once the peripheral drives the one of `line`.
    spec fn alternate(self, line: Line) -> Self;

    /// The pins once the one of `line` is back in the mode that it was configured in.
    spec fn restored(self, line: Line) -> Self;

    /// Hands the pin of `line` to the peripheral.
    fn set_line_alt_mode(&mut self, line: Line)
        ensures
            *final(self) == old(self).alternate(line),
    ;

    /// Puts the pin of `line` back in the mode that it was configured in.
    fn restore_line_mode(&mut self, line: Line)
        ensures
            *final(self) == old(self).restored(line),
    ;

    /// Hands the pins to the peripheral, the one of the clock line first.
    fn set_alt_mode(&mut self)
        ensures
            *final(self) == old(self).alternate(Line::Scl).alternate(Line::Sda),
    {
        self.set_line_alt_mode(Line::Scl);
        self.set_line_alt_mode(Line::Sda);
    }

    /// Puts the pins back in the modes that they were configured in, the one of the clock line
    /// first.
    fn restore_mode(&mut self)
        ensures
            *final(self) == old(self).restored(Line::Scl).restored(Line::Sda),
    {
        self.restore_line_mode(Line::Scl);
        self.restore_line_mode(Line::Sda);
    }
}

impl<I2C, SCL, SDA> Pins<I2C> for (SCL, SDA) where
    SCL: PinA<Scl, I2C> + SetAlternate<OpenDrain, <SCL as PinA<Scl, I2C>>::A>,
    SDA: PinA<Sda, I2C> + SetAlternate<OpenDrain, <SDA as PinA<Sda, I2C>>::A>,
 {
    open spec fn alternate(self, line: Line) -> Self {
        match line {
            Line::Scl => (self.0.alternate(), self.1),
            Line::Sda => (self.0, self.1.alternate()),
        }
    }

    open spec fn restored(self, line: Line) -> Self {
        match line {
            Line::Scl => (self.0.restored(), self.1),
            Line::Sda => (self.0, self.1.restored()),
        }
    }

    fn set_line_alt_mode(&mut self, line: Line) {
        match line {
            Line::Scl => {
                self.0.set_alt_mode();
            },
            Line::Sda => {
                self.1.set_alt_mode();
            },
        }
    }

    fn restore_line_mode(&mut self, line: Line) {
        match line {
            Line::Scl => {
                self.0.restore_mode();
            },
            Line::Sda => {
                self.1.restore_mode();
            },
        }
    }
}

/// Why a transfer failed.
#[derive(Debug, Eq, PartialEq, Copy, Clone, Structural)]
#[non_exhaustive]
#[allow(non_camel_case_types)]
pub enum Error {
    OVERRUN,
    NACK,
    NACK_ADDR,
    NACK_DATA,
    TIMEOUT,
    /// No operation ends with it; callers may still name it.
    BUS,
    CRC,
    ARBITRATION,
}

impl Error {
    /// The error as it is reported while the address is on the bus.
    pub open spec fn on_address(self) -> Self {
        if self == Error::NACK {
            Error::NACK_ADDR
        } else {
            self
        }
    }

    /// The error as it is reported while data is on the bus.
    pub open spec fn on_data(self) -> Self {
        if self == Error::NACK {
            Error::NACK_DATA
        } else {
            self
        }
    }

    /// Turns a missing acknowledge into one of the address.
    pub fn nack_addr(self) -> (error: Self)
        ensures
            error == self.on_address(),
    {
        match self {
            Error::NACK => Error::NACK_ADDR,
            e => e,
        }
    }

    /// Turns a missing acknowledge into one of a data byte.
    pub fn nack_data(self) -> (error: Self)
        ensures
            error == self.on_data(),
    {
        match self {
            Error::NACK => Error::NACK_DATA,
            e => e,
        }
    }
}

/// Two pins in the modes that they were configured in are in those modes again after they were
/// handed to a peripheral and put back.
pub proof fn law_restore_undoes_alternate<I2C, const SCLA: u8, const SDAA: u8>(
    pins: (Pin<Scl, I2C, SCLA>, Pin<Sda, I2C, SDAA>),
)
    requires
        pins.0.mode == pins.0.home,
        pins.1.mode == pins.1.home,
    ensures
        ({
            let driven = Pins::<I2C>::alternate(
                Pins::<I2C>::alternate(pins, Line::Scl),
                Line::Sda,
            );
            let back = Pins::<I2C>::restored(
                Pins::<I2C>::restored(driven, Line::Scl),
                Line::Sda,
            );
            back == pins
        }),
{
}

/// A missing acknowledge, and nothing else, is told apart: it becomes one of the address or one of
/// the data, and every other error stays what it is.
pub proof fn law_nack(error: Error, on_address: Error, on_data: Error)
    requires
        call_ensures(Error::nack_addr, (error,), on_address),
        call_ensures(Error::nack_data, (error,), on_data),
    ensures
        error == Error::NACK ==> on_address == Error::NACK_ADDR && on_data == Error::NACK_DATA,
        error != Error::NACK ==> on_address == error && on_data == error,
        on_address != Error::NACK && on_data != Error::NACK,
        on_address == error.on_address() && on_data == error.on_data(),
{
}

/// Handing over the pin of one line, or putting it back, leaves the pin of the other as it is.
pub proof fn law_lines_are_independent<I2C, const SCLA: u8, const SDAA: u8>(
    pins: (Pin<Scl, I2C, SCLA>, Pin<Sda, I2C, SDAA>),
)
    ensures
        ({
            let scl = Pins::<I2C>::alternate(pins, Line::Scl);
            let sda = Pins::<I2C>::alternate(pins, Line::Sda);
            &&& scl.0.mode == PinMode::AlternateOpenDrain(SCLA) && scl.1 == pins.1
            &&& sda.0 == pins.0 && sda.1.mode == PinMode::AlternateOpenDrain(SDAA)
        }),
        ({
            let scl = Pins::<I2C>::restored(pins, Line::Scl);
            let sda = Pins::<I2C>::restored(pins, Line::Sda);
            &&& scl.0.mode == pins.0.home && scl.1 == pins.1
            &&& sda.0 == pins.0 && sda.1.mode == pins.1.home
        }),
{
}

} // verus!
