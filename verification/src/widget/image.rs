//! A leaf that draws one pre-rasterized drawable.

use vstd::prelude::*;

use crate::component::CalculateSize;
use crate::component::ComponentEvent;
use crate::component::HandleEvent;
use crate::component::Render;
use crate::geom::size::Size;
use crate::render::BlitSurface;
use crate::render::RenderConstraints;
use crate::VuiResult;

verus! {

/// A stateless leaf holding a handle to a pre-rendered drawable and its
/// extent. It transforms no geometry; rendering fills the current clip
/// region's origin with the drawable.
#[derive(Debug, Clone, Copy)]
pub struct Image {
    pub texture: u64,
    pub size: Size,
}

impl Image {
    pub fn new(texture: u64, size: Size) -> (r: Self)
        ensures
            r == (Image { texture, size }),
    {
        Self { texture, size }
    }
}

impl CalculateSize for Image {
    open spec fn spec_size(&self) -> Size {
        self.size
    }

    fn calculate_size(&self) -> (r: Size) {
        self.size
    }
}

impl HandleEvent for Image {
    type State = ();

    open spec fn event_out(&self, event: ComponentEvent) -> ComponentEvent {
        event
    }

    open spec fn handled(&self, pre: (), post: (), event: ComponentEvent) -> bool {
        true
    }

    fn handle_event(&self, state: &mut (), event: ComponentEvent) -> (out: ComponentEvent) {
        event
    }
}

impl<R: BlitSurface> Render<R> for Image {
    type State = ();

    open spec fn render_out(&self, constraints: RenderConstraints) -> RenderConstraints {
        constraints
    }

    fn render(&self, state: &(), constraints: RenderConstraints, target: &mut R) -> (out: VuiResult<
        RenderConstraints,
    >)
        ensures
            constraints.clip_rect.is_empty() ==> out is Ok,
    {
        if constraints.is_degenerate() {
            return Ok(constraints);
        }
        match target.blit_surface(&constraints, self.texture) {
            Ok(_) => Ok(constraints),
            Err(e) => Err(e),
        }
    }
}

} // verus!
