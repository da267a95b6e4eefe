//! Axis-aligned rectangles with half-open extents.

use vstd::prelude::*;

use crate::geom::clamp_i32;
use crate::geom::iabs;
use crate::geom::imax;
use crate::geom::imin;
use crate::geom::point::Point;
use crate::geom::size::Size;
use crate::geom::vector::Vector;

verus! {

/// A rectangle: an origin and an extent. The covered region is half-open,
/// `origin <= p < origin + size` on both axes; a rectangle whose width or
/// height is not positive covers nothing.
#[derive(Clone, Copy, PartialEq, Eq, Structural, Debug, Hash)]
pub struct Rect {
    pub origin: Point,
    pub size: Size,
}

impl Rect {
    /// The right edge, one past the last covered column.
    pub open spec fn right(self) -> int {
        self.origin.x + self.size.width
    }

    /// The bottom edge, one past the last covered row.
    pub open spec fn bottom(self) -> int {
        self.origin.y + self.size.height
    }

    /// Whether this rectangle covers no point at all.
    pub open spec fn is_empty(self) -> bool {
        self.size.width <= 0 || self.size.height <= 0
    }

    /// Half-open membership: `origin <= p < origin + size` on both axes.
    pub open spec fn spec_contains(self, p: Point) -> bool {
        &&& self.origin.x <= p.x < self.right()
        &&& self.origin.y <= p.y < self.bottom()
    }

    /// The region covered by `self` lies within the region covered by
    /// `outer`: either `self` covers nothing, or its edges are within
    /// `outer`'s edges.
    pub open spec fn sub_rect_of(self, outer: Rect) -> bool {
        self.is_empty() || {
            &&& outer.origin.x <= self.origin.x
            &&& self.right() <= outer.right()
            &&& outer.origin.y <= self.origin.y
            &&& self.bottom() <= outer.bottom()
        }
    }

    /// The value [`Rect::clip`] computes: the rectangle translated by `v`
    /// and intersected with the original region, its origin forced back
    /// into coordinate range where the translation left it unrepresentable.
    pub open spec fn spec_clip(self, v: Vector) -> Rect {
        Rect {
            origin: Point {
                x: clamp_i32(self.origin.x + imax(v.x as int, 0)) as i32,
                y: clamp_i32(self.origin.y + imax(v.y as int, 0)) as i32,
            },
            size: Size {
                width: imax(self.size.width - iabs(v.x as int), 0) as i32,
                height: imax(self.size.height - iabs(v.y as int), 0) as i32,
            },
        }
    }

    /// The value [`Rect::shrink`] computes: the same origin with the extent
    /// capped component-wise.
    pub open spec fn spec_shrink(self, size: Size) -> Rect {
        Rect {
            origin: self.origin,
            size: Size {
                width: imin(self.size.width as int, size.width as int) as i32,
                height: imin(self.size.height as int, size.height as int) as i32,
            },
        }
    }

    pub fn new(origin: Point, size: Size) -> (r: Self)
        ensures
            r == (Rect { origin, size }),
    {
        Self { origin, size }
    }

    pub fn from_xywh(x: i32, y: i32, w: i32, h: i32) -> (r: Self)
        ensures
            r == (Rect { origin: Point { x, y }, size: Size { width: w, height: h } }),
    {
        Self::new(Point::new(x, y), Size::new(w, h))
    }

    /// A rectangle of the given extent at the origin of the coordinate space.
    pub fn from_size(size: Size) -> (r: Self)
        ensures
            r == (Rect { origin: Point { x: 0, y: 0 }, size }),
    {
        Self::new(Point::zero(), size)
    }

    /// The corner one past the covered region.
    pub fn limit(&self) -> (r: Point)
        requires
            i32::MIN <= self.right() <= i32::MAX,
            i32::MIN <= self.bottom() <= i32::MAX,
        ensures
            r.x == self.right(),
            r.y == self.bottom(),
    {
        Point::new(self.origin.x + self.size.width, self.origin.y + self.size.height)
    }

    /// The same extent moved by a delta.
    pub fn translate(&self, vector: Vector) -> (r: Self)
        requires
            i32::MIN <= self.origin.x + vector.x <= i32::MAX,
            i32::MIN <= self.origin.y + vector.y <= i32::MAX,
        ensures
            r.origin.x == self.origin.x + vector.x,
            r.origin.y == self.origin.y + vector.y,
            r.size == self.size,
    {
        Self::new(Point::new(self.origin.x + vector.x, self.origin.y + vector.y), self.size)
    }

    /// Translates this rectangle by `vector` and intersects the result with
    /// the original region. A translation too large to overlap yields a
    /// rectangle of zero width or height, never a negative extent.
    pub fn clip(&self, vector: Vector) -> (r: Self)
        ensures
            r.origin.x == clamp_i32(self.origin.x + imax(vector.x as int, 0)),
            r.origin.y == clamp_i32(self.origin.y + imax(vector.y as int, 0)),
            r.size.width == imax(self.size.width - iabs(vector.x as int), 0),
            r.size.height == imax(self.size.height - iabs(vector.y as int), 0),
            r.sub_rect_of(*self),
            (!r.is_empty()) <==> (iabs(vector.x as int) < self.size.width && iabs(
                vector.y as int,
            ) < self.size.height),
            r == self.spec_clip(vector),
    {
        let ox: i64 = self.origin.x as i64 + (if vector.x > 0 {
            vector.x as i64
        } else {
            0
        });
        let oy: i64 = self.origin.y as i64 + (if vector.y > 0 {
            vector.y as i64
        } else {
            0
        });
        let ax: i64 = if vector.x >= 0 {
            vector.x as i64
        } else {
            -(vector.x as i64)
        };
        let ay: i64 = if vector.y >= 0 {
            vector.y as i64
        } else {
            -(vector.y as i64)
        };
        let w: i64 = self.size.width as i64 - ax;
        let h: i64 = self.size.height as i64 - ay;
        let width: i32 = if w < 0 {
            0
        } else {
            w as i32
        };
        let height: i32 = if h < 0 {
            0
        } else {
            h as i32
        };
        Self::new(Point::new(clamp_to_i32(ox), clamp_to_i32(oy)), Size::new(width, height))
    }

    /// The same origin with a new extent.
    pub fn resize(&self, size: Size) -> (r: Self)
        ensures
            r == (Rect { origin: self.origin, size }),
    {
        Self::new(self.origin, size)
    }

    /// The same origin with the extent capped component-wise by `size`.
    pub fn resize_clipped(&self, size: Size) -> (r: Self)
        ensures
            r.origin == self.origin,
            r.size.width == imin(self.size.width as int, size.width as int),
            r.size.height == imin(self.size.height as int, size.height as int),
            r.sub_rect_of(*self),
            r == self.spec_shrink(size),
    {
        Self::new(self.origin, self.size.min(size))
    }

    /// Caps the extent to at most `size`, keeping the origin; never enlarges.
    pub fn shrink(&self, size: Size) -> (r: Self)
        ensures
            r.origin == self.origin,
            r.size.width == imin(self.size.width as int, size.width as int),
            r.size.height == imin(self.size.height as int, size.height as int),
            r.sub_rect_of(*self),
            r == self.spec_shrink(size),
    {
        self.resize_clipped(size)
    }

    /// Half-open membership test.
    pub fn contains(&self, point: Point) -> (r: bool)
        ensures
            r == self.spec_contains(point),
    {
        if point.x < self.origin.x || point.y < self.origin.y {
            return false;
        }
        let limit_x: i64 = self.origin.x as i64 + self.size.width as i64;
        let limit_y: i64 = self.origin.y as i64 + self.size.height as i64;
        (point.x as i64) < limit_x && (point.y as i64) < limit_y
    }

    /// Grows (or, with negative arguments, shrinks) the region by the given
    /// amounts on each side.
    pub fn inflate(&self, width: i32, height: i32) -> (r: Self)
        requires
            i32::MIN <= self.origin.x - width <= i32::MAX,
            i32::MIN <= self.origin.y - height <= i32::MAX,
            i32::MIN <= self.size.width + 2 * width <= i32::MAX,
            i32::MIN <= self.size.height + 2 * height <= i32::MAX,
        ensures
            r.origin.x == self.origin.x - width,
            r.origin.y == self.origin.y - height,
            r.size.width == self.size.width + 2 * width,
            r.size.height == self.size.height + 2 * height,
    {
        let x: i64 = self.origin.x as i64 - width as i64;
        let y: i64 = self.origin.y as i64 - height as i64;
        let w: i64 = self.size.width as i64 + 2 * (width as i64);
        let h: i64 = self.size.height as i64 + 2 * (height as i64);
        Self::from_xywh(x as i32, y as i32, w as i32, h as i32)
    }
}

/// Lying within a region is transitive across nested rectangles.
pub proof fn lemma_sub_rect_trans(a: Rect, b: Rect, c: Rect)
    requires
        a.sub_rect_of(b),
        b.sub_rect_of(c),
    ensures
        a.sub_rect_of(c),
{
}

/// A clipped rectangle lies within the rectangle it was clipped from.
pub proof fn lemma_spec_clip_sub_rect(r: Rect, v: Vector)
    ensures
        r.spec_clip(v).sub_rect_of(r),
{
}

/// Forces a wide intermediate coordinate back into `i32` range.
pub fn clamp_to_i32(n: i64) -> (r: i32)
    ensures
        r as int == clamp_i32(n as int),
{
    if n < i32::MIN as i64 {
        i32::MIN
    } else if n > i32::MAX as i64 {
        i32::MAX
    } else {
        n as i32
    }
}

} // verus!
