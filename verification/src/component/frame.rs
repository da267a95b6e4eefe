//! The size-capping component.

use vstd::prelude::*;

use crate::component::lemma_event_shrink_narrows;
use crate::component::CalculateSize;
use crate::component::ComponentEvent;
use crate::component::HandleEvent;
use crate::component::Render;
use crate::geom::size::Size;
use crate::render::RenderConstraints;
use crate::VuiResult;

verus! {

/// A fixed maximum size: everything after this link in a chain is capped
/// to at most this extent, and ancestors can query it as the subtree's
/// deterministic size. It never enlarges a region.
pub struct Frame {
    pub size: Size,
}

impl Frame {
    pub fn new(size: Size) -> (r: Self)
        ensures
            r.size == size,
    {
        Self { size }
    }
}

impl CalculateSize for Frame {
    open spec fn spec_size(&self) -> Size {
        self.size
    }

    fn calculate_size(&self) -> (r: Size) {
        self.size
    }
}

impl HandleEvent for Frame {
    type State = ();

    open spec fn event_out(&self, event: ComponentEvent) -> ComponentEvent {
        event.spec_shrink(self.size)
    }

    open spec fn handled(&self, pre: (), post: (), event: ComponentEvent) -> bool {
        true
    }

    fn handle_event(&self, state: &mut (), event: ComponentEvent) -> (out: ComponentEvent) {
        proof {
            lemma_event_shrink_narrows(event, self.size);
        }
        event.shrink(self.size)
    }
}

impl<R> Render<R> for Frame {
    type State = ();

    open spec fn render_out(&self, constraints: RenderConstraints) -> RenderConstraints {
        RenderConstraints { clip_rect: constraints.clip_rect.spec_shrink(self.size) }
    }

    fn render(&self, state: &(), constraints: RenderConstraints, target: &mut R) -> (out: VuiResult<
        RenderConstraints,
    >)
        ensures
            out is Ok,
    {
        Ok(constraints.clip_size(self.size))
    }
}

} // verus!
