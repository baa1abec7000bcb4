//! Clocks of the buses that the peripherals sit on.

use vstd::prelude::*;

use crate::time::Hertz;

verus! {

/// The clock frequencies that the chip runs at.
#[derive(Clone, Copy, PartialEq, Eq, Structural, Debug)]
pub struct Clocks {
    /// The frequency of the APB1 bus.
    pub pclk1: Hertz,
}

impl Clocks {
    /// Returns the frequency of the APB1 bus.
    pub fn pclk1(&self) -> (frequency: Hertz)
        ensures
            frequency == self.pclk1,
    {
        self.pclk1
    }
}

} // verus!
