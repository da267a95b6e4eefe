//! Dynamically re-rendered text: the leaf that draws a string supplied at
//! render time, so content can change every frame without rebuilding the
//! component tree.

use vstd::prelude::*;

use crate::component::Render;
use crate::component::TextRenderer;
use crate::render::BlitSurface;
use crate::render::RenderConstraints;
use crate::VuiResult;

verus! {

/// A text leaf whose content is not part of the component: the string to
/// draw arrives as render-time state.
pub struct DynText<R> {
    pub renderer: R,
}

impl<R> DynText<R> {
    pub fn new(renderer: R) -> (r: Self)
        ensures
            r.renderer == renderer,
    {
        Self { renderer }
    }
}

impl<R: TextRenderer> DynText<R> {
    /// Rasterizes `text` and draws it into the clip region. Empty text,
    /// or a region that has degenerated to cover nothing, draws nothing
    /// and succeeds. The region is handed on unchanged.
    pub fn render_text<X: BlitSurface>(
        &self,
        text: &str,
        constraints: RenderConstraints,
        target: &mut X,
    ) -> (out: VuiResult<RenderConstraints>)
        ensures
            out matches Ok(c) ==> c == constraints,
            text@.len() == 0 ==> out is Ok,
            constraints.clip_rect.is_empty() ==> out is Ok,
    {
        if constraints.is_degenerate() {
            return Ok(constraints);
        }
        if text.unicode_len() == 0 {
            return Ok(constraints);
        }
        let texture = match self.renderer.render(text) {
            Ok(t) => t,
            Err(e) => {
                return Err(e);
            },
        };
        match target.blit_surface(&constraints, texture) {
            Ok(_) => Ok(constraints),
            Err(e) => Err(e),
        }
    }
}

impl<R: TextRenderer, X: BlitSurface> Render<X> for DynText<R> {
    type State = String;

    open spec fn render_out(&self, constraints: RenderConstraints) -> RenderConstraints {
        constraints
    }

    fn render(&self, state: &String, constraints: RenderConstraints, target: &mut X) -> (out:
        VuiResult<RenderConstraints>) {
        self.render_text(state.as_str(), constraints, target)
    }
}

} // verus!
