//! Fixed-point units shared by the painter and the input translator.
//!
//! The GUI library works in *logical points* (DPI-independent), the window
//! system in *physical pixels*; the two are related by a scale factor.
//! Coordinates, scale factors and scroll deltas are carried as integers in
//! units of `1/FIXED_ONE` of a point (or of a pixel), so that every
//! conversion is exact and deterministic.

use vstd::prelude::*;

verus! {

/// One logical point (or one physical pixel) in fixed-point units.
pub const FIXED_ONE: i64 = 4096;

/// One square fixed-point unit: the divisor after multiplying two
/// fixed-point quantities.
pub const FIXED_ONE_SQUARED: i64 = 4096 * 4096;

/// Largest DPI scale factor accepted, in fixed-point units (256 pixels per point).
pub const MAX_SCALE_FIXED: u32 = 1048576;

/// Height of one scroll line, in logical points.
pub const LINE_HEIGHT_POINTS: i64 = 24;

/// Largest pointer-coordinate or scroll magnitude accepted, fixed-point.
pub const POINTER_BOUND_FIXED: u64 = 0x100_0000_0000;

/// Logical size of a physical extent: `phys / (scale_fixed / FIXED_ONE)`
/// points, given in fixed-point units and rounded down.
pub open spec fn spec_logical_fixed(phys: u32, scale_fixed: u32) -> int {
    phys * FIXED_ONE * FIXED_ONE / (scale_fixed as int)
}

/// Converts a physical extent (pixels) to a logical extent (fixed-point points).
pub fn logical_fixed(phys: u32, scale_fixed: u32) -> (r: u64)
    requires
        1 <= scale_fixed,
    ensures
        r == spec_logical_fixed(phys, scale_fixed),
{
    proof {
        assert(FIXED_ONE == 4096);
    }
    (phys as u64) * 4096u64 * 4096u64 / (scale_fixed as u64)
}

/// Logical position of a fixed-point physical position:
/// `phys_fixed / (scale_fixed / FIXED_ONE)`, rounded down.
pub open spec fn spec_pointer_logical_fixed(phys_fixed: u64, scale_fixed: u32) -> int {
    phys_fixed * FIXED_ONE / (scale_fixed as int)
}

/// Converts a fixed-point physical position to a logical one.
pub fn pointer_logical_fixed(phys_fixed: u64, scale_fixed: u32) -> (r: u64)
    requires
        1 <= scale_fixed,
        phys_fixed <= POINTER_BOUND_FIXED,
    ensures
        r == spec_pointer_logical_fixed(phys_fixed, scale_fixed),
{
    proof {
        assert(FIXED_ONE == 4096);
    }
    phys_fixed * 4096u64 / (scale_fixed as u64)
}

} // verus!
