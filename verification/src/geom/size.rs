//! Extents.

use vstd::prelude::*;

use crate::geom::imax;
use crate::geom::imin;
use crate::geom::vector::Vector;

verus! {

/// A 2D extent. Well-formed sizes are non-negative; intermediate arithmetic
/// (such as the difference of two sizes) may go negative and is brought back
/// into range with [`Size::fix`].
#[derive(Clone, Copy, PartialEq, Eq, Structural, Debug, Hash)]
pub struct Size {
    pub width: i32,
    pub height: i32,
}

impl Size {
    pub fn new(width: i32, height: i32) -> (r: Self)
        ensures
            r == (Size { width, height }),
    {
        Self { width, height }
    }

    /// This extent read as a delta.
    pub fn as_vector(&self) -> (r: Vector)
        ensures
            r == (Vector { x: self.width, y: self.height }),
    {
        Vector::new(self.width, self.height)
    }

    pub fn zero() -> (r: Self)
        ensures
            r == (Size { width: 0, height: 0 }),
    {
        Self::new(0, 0)
    }

    /// Clamps both extents to zero from below.
    pub fn fix(self) -> (r: Self)
        ensures
            r.width == imax(self.width as int, 0),
            r.height == imax(self.height as int, 0),
    {
        let width: i32 = if self.width < 0 {
            0
        } else {
            self.width
        };
        let height: i32 = if self.height < 0 {
            0
        } else {
            self.height
        };
        Self { width, height }
    }

    /// The component-wise smaller of two extents.
    pub fn min(&self, other: Self) -> (r: Self)
        ensures
            r.width == imin(self.width as int, other.width as int),
            r.height == imin(self.height as int, other.height as int),
    {
        let width: i32 = if self.width <= other.width {
            self.width
        } else {
            other.width
        };
        let height: i32 = if self.height <= other.height {
            self.height
        } else {
            other.height
        };
        Self { width, height }
    }

    /// The component-wise larger of two extents.
    pub fn max(&self, other: Self) -> (r: Self)
        ensures
            r.width == imax(self.width as int, other.width as int),
            r.height == imax(self.height as int, other.height as int),
    {
        let width: i32 = if self.width >= other.width {
            self.width
        } else {
            other.width
        };
        let height: i32 = if self.height >= other.height {
            self.height
        } else {
            other.height
        };
        Self { width, height }
    }
}

} // verus!
