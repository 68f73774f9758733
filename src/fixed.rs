//! Fixed-point numbers: a value `v` stands for the real number `v / ONE`.
use vstd::prelude::*;

verus! {

/// The fixed-point representation of 1.0.
pub const ONE: u64 = 1_000_000;

/// The largest learning constant accepted (1000.0).
pub const MAX_LEARNING_CONSTANT: u64 = 1_000_000_000;

/// The largest number of inputs (pixels) a network may have.
pub const MAX_INPUTS: usize = 1_048_576;

/// The largest number of neurons a network may have.
pub const MAX_NEURONS: usize = 4096;

/// A raw 8-bit intensity scaled to `[0, ONE]`, rounded down.
pub open spec fn intensity_spec(b: u8) -> int {
    (b as int) * (ONE as int) / 255
}

/// Scales a raw 8-bit pixel intensity (0..=255) to a measure in `[0, ONE]`.
pub fn intensity_from_byte(b: u8) -> (r: u64)
    ensures
        r == intensity_spec(b),
        r <= ONE,
{
    assert((b as int) * (ONE as int) <= 255 * (ONE as int)) by (nonlinear_arith)
        requires b <= 255;
    assert((b as int) * (ONE as int) / 255 <= ONE as int) by (nonlinear_arith)
        requires (b as int) * (ONE as int) <= 255 * (ONE as int);
    (b as u64) * ONE / 255
}

} // verus!
