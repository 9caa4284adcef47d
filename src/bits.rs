use vstd::prelude::*;

verus! {

/// A double-precision floating-point value, held as its IEEE-754 bit pattern
/// so that it crosses the boundary unchanged, bit for bit.
#[derive(Clone, Copy, Debug, PartialEq, Eq, Structural)]
pub struct F64Bits {
    pub bits: u64,
}

/// A single-precision floating-point value, held as its IEEE-754 bit pattern.
#[derive(Clone, Copy, Debug, PartialEq, Eq, Structural)]
pub struct F32Bits {
    pub bits: u32,
}

} // verus!
