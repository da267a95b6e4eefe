//! The text-input widget: structurally the button's recipe, but its
//! content is re-rendered text driven by accumulated input, read at render
//! time without rebuilding the component tree.

use vstd::prelude::*;

use crate::component::lemma_event_narrows_trans;
use crate::component::CalculateSize;
use crate::component::Chain;
use crate::component::ComponentEvent;
use crate::component::Frame;
use crate::component::HandleEvent;
use crate::component::MouseSensor;
use crate::component::MouseSensorState;
use crate::component::Position;
use crate::component::Render;
use crate::component::TextRenderer;
use crate::geom::size::Size;
use crate::render::BlitSurface;
use crate::render::RenderConstraints;
use crate::widget::dyn_text::DynText;
use crate::widget::image::Image;
use crate::VuiResult;

verus! {

/// The state a text input owns: its sensor's interaction state and the
/// accumulated input text.
#[derive(Debug)]
pub struct TextInputState {
    pub mouse_sensor: MouseSensorState,
    pub text: String,
}

impl Default for TextInputState {
    /// No interaction yet, empty text.
    fn default() -> (r: Self)
        ensures
            r.mouse_sensor.hover_state.flags == 0,
            r.mouse_sensor.click_states.click_state == 0,
            r.mouse_sensor.click_states.event_state == 0,
            r.text@.len() == 0,
    {
        proof {
            reveal_strlit("");
        }
        TextInputState { mouse_sensor: MouseSensorState::default(), text: String::from_str("") }
    }
}

impl TextInputState {
    /// Appends newly typed text to the accumulated input.
    pub fn update(&mut self, text: &str)
        ensures
            final(self).text@ == old(self).text@ + text@,
            final(self).mouse_sensor == old(self).mouse_sensor,
    {
        self.text.append(text);
    }
}

/// The text-input recipe: an outer frame with a sensor, an inset described
/// by a position–frame–position chain, a background, and dynamic text
/// content.
pub struct TextInput<R> {
    pub outer: Chain<Frame, MouseSensor>,
    pub inner: Chain<Position, Chain<Frame, Position>>,
    pub background: Image,
    pub content: DynText<R>,
}

impl<R> TextInput<R> {
    pub fn new(
        outer: Chain<Frame, MouseSensor>,
        inner: Chain<Position, Chain<Frame, Position>>,
        background: Image,
        content: DynText<R>,
    ) -> (r: Self)
        ensures
            r.outer == outer,
            r.inner == inner,
            r.background == background,
            r.content == content,
    {
        Self { outer, inner, background, content }
    }
}

impl<R> CalculateSize for TextInput<R> {
    open spec fn spec_size(&self) -> Size {
        self.outer.first.size
    }

    fn calculate_size(&self) -> (r: Size) {
        self.outer.first.calculate_size()
    }
}

impl<R> HandleEvent for TextInput<R> {
    type State = TextInputState;

    open spec fn event_out(&self, event: ComponentEvent) -> ComponentEvent {
        event.spec_shrink(self.outer.first.size).spec_clip(self.inner.first.spec_offset())
            .spec_shrink(self.inner.rest.first.size).spec_clip(self.inner.rest.rest.spec_offset())
    }

    open spec fn handled(
        &self,
        pre: TextInputState,
        post: TextInputState,
        event: ComponentEvent,
    ) -> bool {
        &&& post.mouse_sensor == pre.mouse_sensor.spec_handle(
            event.spec_shrink(self.outer.first.size),
        )
        &&& post.text == pre.text
    }

    fn handle_event(&self, state: &mut TextInputState, event: ComponentEvent) -> (out:
        ComponentEvent) {
        let mut outer_state = ((), state.mouse_sensor);
        let mid = self.outer.handle_event(&mut outer_state, event);
        state.mouse_sensor = outer_state.1;
        let mut inner_state = ((), ((), ()));
        let out = self.inner.handle_event(&mut inner_state, mid);
        proof {
            lemma_event_narrows_trans(event, mid, out);
        }
        out
    }
}

impl<R: TextRenderer, X: BlitSurface> Render<X> for TextInput<R> {
    type State = TextInputState;

    open spec fn render_out(&self, constraints: RenderConstraints) -> RenderConstraints {
        RenderConstraints {
            clip_rect: constraints.clip_rect.spec_shrink(self.outer.first.size).spec_clip(
                self.inner.first.spec_offset(),
            ).spec_shrink(self.inner.rest.first.size).spec_clip(self.inner.rest.rest.spec_offset()),
        }
    }

    fn render(
        &self,
        state: &TextInputState,
        constraints: RenderConstraints,
        target: &mut X,
    ) -> (out: VuiResult<RenderConstraints>)
        ensures
            constraints.clip_rect.is_empty() ==> out is Ok,
    {
        let framed = constraints.clip_size(self.outer.first.size);
        match self.background.render(&(), framed, target) {
            Ok(_) => {
            },
            Err(e) => {
                return Err(e);
            },
        }
        let inset = framed.clip_topleft(self.inner.first.value.as_vector());
        let capped = inset.clip_size(self.inner.rest.first.size);
        let content_region = capped.clip_topleft(self.inner.rest.rest.value.as_vector());
        let out = match self.content.render_text(state.text.as_str(), content_region, target) {
            Ok(c) => c,
            Err(e) => {
                return Err(e);
            },
        };
        proof {
            crate::geom::rect::lemma_sub_rect_trans(
                content_region.clip_rect,
                capped.clip_rect,
                inset.clip_rect,
            );
            crate::geom::rect::lemma_sub_rect_trans(
                content_region.clip_rect,
                inset.clip_rect,
                framed.clip_rect,
            );
            crate::geom::rect::lemma_sub_rect_trans(
                content_region.clip_rect,
                framed.clip_rect,
                constraints.clip_rect,
            );
        }
        Ok(out)
    }
}

} // verus!
