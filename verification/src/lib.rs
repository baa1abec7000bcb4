//! Drivers for the I2C and FMPI2C peripherals of STM32F4 microcontrollers.
//!
//! Everything the drivers decide is here: which register is accessed next, which value is written
//! to it, what a value read from it means and when a transfer ends, and how. The accesses
//! themselves are not: a transfer is an [`operation::Operation`], which asks for one access at a
//! time and is told what came of it.

pub mod fmpi2c;
pub mod gpio;
pub mod i2c;
pub mod operation;
pub mod rcc;
mod sealed;
pub mod time;
