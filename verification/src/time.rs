//! Frequencies.

use vstd::prelude::*;

verus! {

/// A frequency in hertz.
#[derive(Clone, Copy, PartialEq, Eq, Structural, Debug)]
pub struct Hertz(pub u32);

} // verus!
