//! The render-time analog of the event pipeline: an accumulated clip
//! region threaded from root to leaf each frame, and the opaque boundary to
//! the render surface.

use vstd::prelude::*;

use crate::geom::clamp_i32;
use crate::geom::imax;
use crate::geom::imin;
use crate::geom::point::Point;
use crate::geom::rect::Rect;
use crate::geom::size::Size;
use crate::geom::vector::Vector;
use crate::VuiResult;

verus! {

/// The accumulated clip region of a render pass. Each composition step may
/// narrow it; once it degenerates to an empty region, later draws cover
/// nothing and the region is passed on unchanged.
#[derive(Debug, Clone, Copy, PartialEq, Eq, Structural)]
pub struct RenderConstraints {
    pub clip_rect: Rect,
}

impl RenderConstraints {
    pub fn new(clip_rect: Rect) -> (r: Self)
        ensures
            r == (RenderConstraints { clip_rect }),
    {
        Self { clip_rect }
    }

    /// The accumulated clip rectangle.
    pub fn clip_rect(&self) -> (r: Rect)
        ensures
            r == self.clip_rect,
    {
        self.clip_rect
    }

    /// Whether the region has degenerated and covers nothing, so that a
    /// draw into it can be skipped silently.
    pub fn is_degenerate(&self) -> (r: bool)
        ensures
            r == self.clip_rect.is_empty(),
    {
        self.clip_rect.size.width <= 0 || self.clip_rect.size.height <= 0
    }

    /// Narrows the region to its intersection with `rect`. Where the two do
    /// not overlap the result is an empty region, never a negative extent.
    pub fn clip(&self, rect: Rect) -> (r: Self)
        ensures
            r.clip_rect.origin.x == clamp_i32(imax(self.clip_rect.origin.x as int, rect.origin.x as int)),
            r.clip_rect.origin.y == clamp_i32(imax(self.clip_rect.origin.y as int, rect.origin.y as int)),
            r.clip_rect.size.width == imax(
                imin(self.clip_rect.right(), rect.right()) - imax(
                    self.clip_rect.origin.x as int,
                    rect.origin.x as int,
                ),
                0,
            ),
            r.clip_rect.size.height == imax(
                imin(self.clip_rect.bottom(), rect.bottom()) - imax(
                    self.clip_rect.origin.y as int,
                    rect.origin.y as int,
                ),
                0,
            ),
            r.clip_rect.sub_rect_of(self.clip_rect),
            r.clip_rect.sub_rect_of(rect),
    {
        let a = self.clip_rect;
        let x0: i64 = if a.origin.x >= rect.origin.x {
            a.origin.x as i64
        } else {
            rect.origin.x as i64
        };
        let y0: i64 = if a.origin.y >= rect.origin.y {
            a.origin.y as i64
        } else {
            rect.origin.y as i64
        };
        let ar: i64 = a.origin.x as i64 + a.size.width as i64;
        let br: i64 = rect.origin.x as i64 + rect.size.width as i64;
        let x1: i64 = if ar <= br {
            ar
        } else {
            br
        };
        let ab: i64 = a.origin.y as i64 + a.size.height as i64;
        let bb: i64 = rect.origin.y as i64 + rect.size.height as i64;
        let y1: i64 = if ab <= bb {
            ab
        } else {
            bb
        };
        let w: i64 = x1 - x0;
        let h: i64 = y1 - y0;
        let width: i32 = if w < 0 {
            0
        } else {
            w as i32
        };
        let height: i32 = if h < 0 {
            0
        } else {
            h as i32
        };
        Self::new(
            Rect::new(
                Point::new(crate::geom::rect::clamp_to_i32(x0), crate::geom::rect::clamp_to_i32(y0)),
                Size::new(width, height),
            ),
        )
    }

    /// Narrows the region as a child shifted by `delta` sees it: the region
    /// translated by `delta` and intersected with the original.
    pub fn clip_topleft(&self, delta: Vector) -> (r: Self)
        ensures
            r.clip_rect == self.clip_rect.spec_clip(delta),
            r.clip_rect.sub_rect_of(self.clip_rect),
    {
        Self::new(self.clip_rect.clip(delta))
    }

    /// Caps the region's extent to at most `size`.
    pub fn clip_size(&self, size: Size) -> (r: Self)
        ensures
            r.clip_rect == self.clip_rect.spec_shrink(size),
            r.clip_rect.sub_rect_of(self.clip_rect),
    {
        Self::new(self.clip_rect.shrink(size))
    }
}

/// The opaque boundary to the render surface, implemented outside the
/// library by the windowing backend. Drawables are referred to by handles
/// the backend gave out when they were created; a failure (texture
/// creation, surface exhaustion) propagates as an error and aborts the
/// current render pass.
pub trait BlitSurface {
    /// Draws the drawable `texture` positioned at the origin of the given
    /// clip region.
    fn blit_surface(&mut self, constraints: &RenderConstraints, texture: u64) -> VuiResult<()>;

    /// Fills the given clip region with a solid color.
    fn fill(&mut self, constraints: &RenderConstraints, red: u8, green: u8, blue: u8) -> VuiResult<
        (),
    >;
}

} // verus!
