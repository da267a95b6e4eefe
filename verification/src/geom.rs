//! Integer 2D geometry in a single coordinate space.
//!
//! `Point` is an absolute position, `Vector` a translation delta, `Size` an
//! extent, and `Rect` an axis-aligned rectangle with half-open extents.
//! Every operation is exact integer arithmetic; there is no rounding and no
//! floating point.

use vstd::prelude::*;

pub mod point;
pub mod rect;
pub mod size;
pub mod vector;

pub use point::Point;
pub use rect::Rect;
pub use size::Size;
pub use vector::Vector;

verus! {

/// The larger of two mathematical integers.
pub open spec fn imax(a: int, b: int) -> int {
    if a >= b {
        a
    } else {
        b
    }
}

/// The smaller of two mathematical integers.
pub open spec fn imin(a: int, b: int) -> int {
    if a <= b {
        a
    } else {
        b
    }
}

/// The absolute value of a mathematical integer.
pub open spec fn iabs(a: int) -> int {
    if a >= 0 {
        a
    } else {
        -a
    }
}

/// `n` forced into the value range of `i32`.
pub open spec fn clamp_i32(n: int) -> int {
    if n < i32::MIN {
        i32::MIN as int
    } else if n > i32::MAX {
        i32::MAX as int
    } else {
        n
    }
}

} // verus!
