//! A bound that no other crate can meet.

use vstd::prelude::*;

verus! {

/// What the marker types of this crate have in common.
pub trait Sealed {

}

} // verus!
