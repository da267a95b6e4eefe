//! The empty component: it holds no state, transforms no geometry, and
//! draws nothing. It closes off the tail of a chain.

use vstd::prelude::*;

use crate::component::CalculateSize;
use crate::component::ComponentEvent;
use crate::component::HandleEvent;
use crate::component::Render;
use crate::geom::size::Size;
use crate::render::RenderConstraints;
use crate::VuiResult;

verus! {

/// A component that does nothing.
pub struct Noop;

impl HandleEvent for Noop {
    type State = ();

    open spec fn event_out(&self, event: ComponentEvent) -> ComponentEvent {
        event
    }

    open spec fn handled(&self, pre: (), post: (), event: ComponentEvent) -> bool {
        true
    }

    fn handle_event(&self, state: &mut (), event: ComponentEvent) -> (out: ComponentEvent) {
        event
    }
}

impl CalculateSize for Noop {
    open spec fn spec_size(&self) -> Size {
        Size { width: 0, height: 0 }
    }

    fn calculate_size(&self) -> (r: Size) {
        Size::zero()
    }
}

impl<R> Render<R> for Noop {
    type State = ();

    open spec fn render_out(&self, constraints: RenderConstraints) -> RenderConstraints {
        constraints
    }

    fn render(&self, state: &(), constraints: RenderConstraints, target: &mut R) -> (out: VuiResult<
        RenderConstraints,
    >)
        ensures
            out is Ok,
    {
        Ok(constraints)
    }
}

} // verus!
