//! Translation deltas.

use vstd::prelude::*;

use crate::geom::point::Point;

verus! {

/// A translation delta between positions.
#[derive(Clone, Copy, PartialEq, Eq, Structural, Debug, Hash)]
pub struct Vector {
    pub x: i32,
    pub y: i32,
}

impl Vector {
    pub fn new(x: i32, y: i32) -> (r: Self)
        ensures
            r == (Vector { x, y }),
    {
        Self { x, y }
    }

    /// This delta read as an absolute position.
    pub fn as_point(&self) -> (r: Point)
        ensures
            r == (Point { x: self.x, y: self.y }),
    {
        Point::new(self.x, self.y)
    }

    pub fn zero() -> (r: Self)
        ensures
            r == (Vector { x: 0, y: 0 }),
    {
        Self::new(0, 0)
    }
}

} // verus!
