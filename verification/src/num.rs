use vstd::prelude::*;

verus! {

/// A `u64` read as a `u32` (meaningful when it fits).
pub open spec fn low_u32(x: u64) -> u32 {
    x as u32
}

/// Converts a `u64` that fits into a `u32`.
pub fn narrow_u32(x: u64) -> (r: u32)
    requires
        x <= u32::MAX,
    ensures
        r == x,
        r == low_u32(x),
{
    x as u32
}

/// A position as an integer.
pub open spec fn pos(i: usize) -> int {
    i as int
}

} // verus!
