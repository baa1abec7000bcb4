//! The registers of the peripheral and the bits in them.

use vstd::prelude::*;

verus! {

/// A register of the peripheral.
#[derive(Clone, Copy, PartialEq, Eq, Structural, Debug)]
pub enum Register {
    /// Control register 1.
    Cr1,
    /// Control register 2.
    Cr2,
    /// Data register.
    Dr,
    /// Status register 1.
    Sr1,
    /// Status register 2.
    Sr2,
    /// Clock control register.
    Ccr,
    /// Maximum rise time.
    Trise,
}

/// CR1: peripheral enable.
pub const PE: u32 = 0x0001;

/// CR1: start generation.
pub const START: u32 = 0x0100;

/// SR1: start condition generated.
pub const SB: u32 = 0x0001;

/// SR1: address sent.
pub const ADDR: u32 = 0x0002;

/// SR1: byte transfer finished.
pub const BTF: u32 = 0x0004;

/// SR1: data register not empty.
pub const RXNE: u32 = 0x0040;

/// SR1: data register empty.
pub const TXE: u32 = 0x0080;

/// SR1: bus error.
pub const BERR: u32 = 0x0100;

/// SR1: arbitration lost.
pub const ARLO: u32 = 0x0200;

/// SR1: acknowledge failure.
pub const AF: u32 = 0x0400;

/// SR1: overrun or underrun.
pub const OVR: u32 = 0x0800;

/// SR1: packet error check failed.
pub const PECERR: u32 = 0x1000;

/// SR1: timeout.
pub const TIMEOUT: u32 = 0x4000;

/// SR2: the peripheral is master.
pub const MSL: u32 = 0x0001;

/// SR2: the bus is busy.
pub const BUSY: u32 = 0x0002;

/// CCR: the duty cycle of fast mode is 16:9.
pub const DUTY: u32 = 0x4000;

/// CCR: fast mode.
pub const F_S: u32 = 0x8000;

/// The number of values that the clock control field of CCR can hold.
pub const CCR_FIELD: u32 = 0x1000;

} // verus!
