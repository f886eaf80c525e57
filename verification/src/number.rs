//! Real numbers that are carried, not computed with.

use vstd::prelude::*;

verus! {

/// A double-precision number, held as its bits in the IEEE 754 layout.
#[derive(Clone, Copy, Debug, PartialEq, Eq, Structural)]
pub struct Real {
    pub bits: u64,
}

} // verus!
