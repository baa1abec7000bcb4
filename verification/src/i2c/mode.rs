//! The speed modes of the bus.

use vstd::prelude::*;
use vstd::std_specs::convert::FromSpecImpl;

use crate::time::Hertz;

verus! {

/// How long the clock line is low, as against high, in fast mode.
#[derive(Debug, Eq, PartialEq, Structural)]
pub enum DutyCycle {
    Ratio2to1,
    Ratio16to9,
}

/// The speed mode of a bus.
#[derive(Debug, PartialEq, Structural)]
pub enum Mode {
    Standard { frequency: Hertz },
    Fast { frequency: Hertz, duty_cycle: DutyCycle },
}

/// The highest frequency of standard mode, in hertz.
pub const STANDARD_MAX: u32 = 100_000;

impl Mode {
    /// The mode that a bare frequency stands for: standard mode as far as it reaches, and fast
    /// mode with a duty cycle of 2:1 above that.
    pub open spec fn of(frequency: Hertz) -> Self {
        if frequency.0 <= STANDARD_MAX {
            Mode::Standard { frequency }
        } else {
            Mode::Fast { frequency, duty_cycle: DutyCycle::Ratio2to1 }
        }
    }

    /// The frequency of the mode.
    pub open spec fn frequency(self) -> Hertz {
        match self {
            Mode::Standard { frequency } => frequency,
            Mode::Fast { frequency, duty_cycle: _ } => frequency,
        }
    }

    /// Standard mode at the given frequency.
    pub fn standard(frequency: Hertz) -> (mode: Self)
        ensures
            mode == (Mode::Standard { frequency }),
    {
        Mode::Standard { frequency }
    }

    /// Fast mode at the given frequency, with the given duty cycle.
    pub fn fast(frequency: Hertz, duty_cycle: DutyCycle) -> (mode: Self)
        ensures
            mode == (Mode::Fast { frequency, duty_cycle }),
    {
        Mode::Fast { frequency, duty_cycle }
    }

    /// Returns the frequency of the mode.
    pub fn get_frequency(&self) -> (frequency: Hertz)
        ensures
            frequency == self.frequency(),
    {
        match *self {
            Mode::Standard { frequency } => frequency,
            Mode::Fast { frequency, .. } => frequency,
        }
    }
}

impl From<Hertz> for Mode {
    fn from(frequency: Hertz) -> (mode: Self) {
        if frequency.0 <= STANDARD_MAX {
            Mode::Standard { frequency }
        } else {
            Mode::Fast { frequency, duty_cycle: DutyCycle::Ratio2to1 }
        }
    }
}

impl FromSpecImpl<Hertz> for Mode {
    open spec fn obeys_from_spec() -> bool {
        true
    }

    open spec fn from_spec(frequency: Hertz) -> Self {
        Mode::of(frequency)
    }
}

/// The mode that a frequency is turned into runs at that frequency.
pub proof fn law_from_keeps_frequency(frequency: Hertz)
    ensures
        Mode::of(frequency).frequency() == frequency,
{
}

/// A frequency is turned into standard mode if and only if it is at most 100 kHz, and into fast mode
/// with a duty cycle of 2:1 if and only if it is above that; the mode runs at that frequency.
pub proof fn law_from(frequency: Hertz, mode: Mode)
    requires
        call_ensures(<Mode as From<Hertz>>::from, (frequency,), mode),
    ensures
        mode is Standard <==> frequency.0 <= 100_000,
        mode is Fast <==> 100_000 < frequency.0,
        mode == (Mode::Standard { frequency }) || mode == (Mode::Fast {
            frequency,
            duty_cycle: DutyCycle::Ratio2to1,
        }),
        mode == Mode::of(frequency),
{
}

/// A mode that is made at a frequency is the one that was asked for, and that frequency is read back
/// from it.
pub proof fn law_get_frequency(
    frequency: Hertz,
    duty_cycle: DutyCycle,
    standard: Mode,
    fast: Mode,
    of_standard: Hertz,
    of_fast: Hertz,
)
    requires
        call_ensures(Mode::standard, (frequency,), standard),
        call_ensures(Mode::fast, (frequency, duty_cycle), fast),
        call_ensures(Mode::get_frequency, (&standard,), of_standard),
        call_ensures(Mode::get_frequency, (&fast,), of_fast),
    ensures
        standard == (Mode::Standard { frequency }),
        fast == (Mode::Fast { frequency, duty_cycle }),
        of_standard == frequency,
        of_fast == frequency,
{
}

} // verus!
