//! The speed modes of the bus.

use vstd::prelude::*;
use vstd::std_specs::convert::FromSpecImpl;

use crate::time::Hertz;

verus! {

/// The speed mode of a bus.
#[derive(Debug, PartialEq, Structural)]
pub enum FmpMode {
    Standard { frequency: Hertz },
    Fast { frequency: Hertz },
    FastPlus { frequency: Hertz },
}

/// The highest frequency of standard mode, in hertz.
pub const STANDARD_MAX: u32 = 100_000;

/// The highest frequency of fast mode, in hertz.
pub const FAST_MAX: u32 = 400_000;

impl FmpMode {
    /// The mode that a bare frequency stands for: the slowest one that reaches it.
    pub open spec fn of(frequency: Hertz) -> Self {
        if frequency.0 <= STANDARD_MAX {
            FmpMode::Standard { frequency }
        } else if frequency.0 <= FAST_MAX {
            FmpMode::Fast { frequency }
        } else {
            FmpMode::FastPlus { frequency }
        }
    }

    /// The frequency of the mode.
    pub open spec fn frequency(self) -> Hertz {
        match self {
            FmpMode::Standard { frequency } => frequency,
            FmpMode::Fast { frequency } => frequency,
            FmpMode::FastPlus { frequency } => frequency,
        }
    }

    /// Standard mode at the given frequency.
    pub fn standard(frequency: Hertz) -> (mode: Self)
        ensures
            mode == (FmpMode::Standard { frequency }),
    {
        FmpMode::Standard { frequency }
    }

    /// Fast mode at the given frequency.
    pub fn fast(frequency: Hertz) -> (mode: Self)
        ensures
            mode == (FmpMode::Fast { frequency }),
    {
        FmpMode::Fast { frequency }
    }

    /// Fast mode plus at the given frequency.
    pub fn fast_plus(frequency: Hertz) -> (mode: Self)
        ensures
            mode == (FmpMode::FastPlus { frequency }),
    {
        FmpMode::FastPlus { frequency }
    }

    /// Returns the frequency of the mode.
    pub fn get_frequency(&self) -> (frequency: Hertz)
        ensures
            frequency == self.frequency(),
    {
        match *self {
            FmpMode::Standard { frequency } => frequency,
            FmpMode::Fast { frequency } => frequency,
            FmpMode::FastPlus { frequency } => frequency,
        }
    }
}

impl From<Hertz> for FmpMode {
    fn from(frequency: Hertz) -> (mode: Self) {
        if frequency.0 <= STANDARD_MAX {
            FmpMode::Standard { frequency }
        } else if frequency.0 <= FAST_MAX {
            FmpMode::Fast { frequency }
        } else {
            FmpMode::FastPlus { frequency }
        }
    }
}

impl FromSpecImpl<Hertz> for FmpMode {
    open spec fn obeys_from_spec() -> bool {
        true
    }

    open spec fn from_spec(frequency: Hertz) -> Self {
        FmpMode::of(frequency)
    }
}

/// The mode that a frequency is turned into runs at that frequency.
pub proof fn law_from_keeps_frequency(frequency: Hertz)
    ensures
        FmpMode::of(frequency).frequency() == frequency,
{
}

/// A frequency is turned into standard mode if and only if it is at most 100 kHz, into fast mode if
/// and only if it is above that and at most 400 kHz, and into fast mode plus if and only if it is
/// above 400 kHz; the mode runs at that frequency.
pub proof fn law_from(frequency: Hertz, mode: FmpMode)
    requires
        call_ensures(<FmpMode as From<Hertz>>::from, (frequency,), mode),
    ensures
        mode is Standard <==> frequency.0 <= 100_000,
        mode is Fast <==> 100_000 < frequency.0 <= 400_000,
        mode is FastPlus <==> 400_000 < frequency.0,
        match mode {
            FmpMode::Standard { frequency: kept } => kept == frequency,
            FmpMode::Fast { frequency: kept } => kept == frequency,
            FmpMode::FastPlus { frequency: kept } => kept == frequency,
        },
        mode == FmpMode::of(frequency),
{
}

/// A mode that is made at a frequency is the one that was asked for, and that frequency is read back
/// from it.
pub proof fn law_get_frequency(
    frequency: Hertz,
    standard: FmpMode,
    fast: FmpMode,
    fast_plus: FmpMode,
    of_standard: Hertz,
    of_fast: Hertz,
    of_fast_plus: Hertz,
)
    requires
        call_ensures(FmpMode::standard, (frequency,), standard),
        call_ensures(FmpMode::fast, (frequency,), fast),
        call_ensures(FmpMode::fast_plus, (frequency,), fast_plus),
        call_ensures(FmpMode::get_frequency, (&standard,), of_standard),
        call_ensures(FmpMode::get_frequency, (&fast,), of_fast),
        call_ensures(FmpMode::get_frequency, (&fast_plus,), of_fast_plus),
    ensures
        standard == (FmpMode::Standard { frequency }),
        fast == (FmpMode::Fast { frequency }),
        fast_plus == (FmpMode::FastPlus { frequency }),
        of_standard == frequency,
        of_fast == frequency,
        of_fast_plus == frequency,
{
}

} // verus!
