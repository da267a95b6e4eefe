//! The coordinate-translating component.

use vstd::prelude::*;

use crate::component::lemma_event_clip_narrows;
use crate::component::ComponentEvent;
use crate::component::HandleEvent;
use crate::component::Render;
use crate::geom::point::Point;
use crate::geom::vector::Vector;
use crate::render::RenderConstraints;
use crate::VuiResult;

verus! {

/// A fixed-offset translation of the coordinate space: everything after
/// this link in a chain lives `value` away from the enclosing origin. It
/// holds no state and cannot fail; it only rewrites geometry.
pub struct Position {
    pub value: Point,
}

impl Position {
    pub fn new(pos: Point) -> (r: Self)
        ensures
            r.value == pos,
    {
        Self { value: pos }
    }

    /// The stored offset.
    pub fn position(&self) -> (r: Point)
        ensures
            r == self.value,
    {
        self.value
    }

    /// The stored offset as a translation delta.
    pub open spec fn spec_offset(&self) -> Vector {
        Vector { x: self.value.x, y: self.value.y }
    }
}

impl HandleEvent for Position {
    type State = ();

    open spec fn event_out(&self, event: ComponentEvent) -> ComponentEvent {
        event.spec_clip(self.spec_offset())
    }

    open spec fn handled(&self, pre: (), post: (), event: ComponentEvent) -> bool {
        true
    }

    fn handle_event(&self, state: &mut (), event: ComponentEvent) -> (out: ComponentEvent) {
        proof {
            lemma_event_clip_narrows(event, self.spec_offset());
        }
        event.clip(self.value.as_vector())
    }
}

impl<R> Render<R> for Position {
    type State = ();

    open spec fn render_out(&self, constraints: RenderConstraints) -> RenderConstraints {
        RenderConstraints { clip_rect: constraints.clip_rect.spec_clip(self.spec_offset()) }
    }

    fn render(&self, state: &(), constraints: RenderConstraints, target: &mut R) -> (out: VuiResult<
        RenderConstraints,
    >)
        ensures
            out is Ok,
    {
        Ok(constraints.clip_topleft(self.value.as_vector()))
    }
}

} // verus!
