//! The registers of the peripheral and the bits in them.

use vstd::prelude::*;

verus! {

/// A register of the peripheral.
#[derive(Clone, Copy, PartialEq, Eq, Structural, Debug)]
pub enum Register {
    /// Control register 1.
    Cr1,
    /// Timing register.
    Timingr,
    /// Interrupt and status register.
    Isr,
    /// Interrupt clear register.
    Icr,
    /// Receive data register.
    Rxdr,
    /// Transmit data register.
    Txdr,
}

/// CR1: peripheral enable.
pub const PE: u32 = 0x01;

/// ISR: a byte to transmit is asked for.
pub const TXIS: u32 = 0x02;

/// ISR: receive data register not empty.
pub const RXNE: u32 = 0x04;

/// ISR: not acknowledge received.
pub const NACKF: u32 = 0x10;

/// ICR: clear the not acknowledge flag.
pub const NACKCF: u32 = 0x10;

/// ICR: clear the stop detection flag.
pub const STOPCF: u32 = 0x20;

/// The field of DCKCFGR2, a clock configuration register of the chip, that selects the clock of the
/// peripheral.
pub const FMPI2C1SEL: u32 = 0x00c0_0000;

/// The value of that field that selects the internal oscillator.
pub const FMPI2C1SEL_HSI: u32 = 0x0080_0000;

} // verus!
