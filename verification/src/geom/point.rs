//! Absolute positions.

use vstd::prelude::*;

use crate::geom::size::Size;
use crate::geom::vector::Vector;

verus! {

/// An absolute position in the coordinate space.
#[derive(Clone, Copy, PartialEq, Eq, Structural, Debug, Hash)]
pub struct Point {
    pub x: i32,
    pub y: i32,
}

impl Point {
    pub fn new(x: i32, y: i32) -> (r: Self)
        ensures
            r == (Point { x, y }),
    {
        Self { x, y }
    }

    /// This position read as a delta from the origin.
    pub fn as_vector(&self) -> (r: Vector)
        ensures
            r == (Vector { x: self.x, y: self.y }),
    {
        Vector::new(self.x, self.y)
    }

    /// This position read as an extent.
    pub fn as_size(&self) -> (r: Size)
        ensures
            r == (Size { width: self.x, height: self.y }),
    {
        Size::new(self.x, self.y)
    }

    pub fn zero() -> (r: Self)
        ensures
            r == (Point { x: 0, y: 0 }),
    {
        Self::new(0, 0)
    }
}

} // verus!
