//! A hit-testing component that tracks clicks as an explicit four-phase
//! state machine and paints a hover overlay. It records per-button progress
//! through neutral, started, active and completed phases, advancing the
//! transient phases at each frame boundary so no button gets stuck between
//! frames.

use vstd::prelude::*;

use crate::component::ComponentEvent;
use crate::component::HandleEvent;
use crate::component::Render;
use crate::mouse::MouseButton;
use crate::render::BlitSurface;
use crate::render::RenderConstraints;
use crate::VuiResult;

verus! {

/// The phase a button's click is in: `Started` the frame the button went
/// down over the component, `Active` while it stays down, `Completed` the
/// frame it came up over the component, and `Neutral` otherwise.
#[derive(Debug, Copy, Clone, Eq, PartialEq, Structural)]
pub enum ClickState {
    Neutral,
    Started,
    Active,
    Completed,
}

impl Default for ClickState {
    fn default() -> (r: Self)
        ensures
            r == ClickState::Neutral,
    {
        Self::Neutral
    }
}

impl ClickState {
    /// The phase after a frame boundary: the transient phases move on, the
    /// stable ones stay.
    pub open spec fn spec_advance(self) -> Self {
        match self {
            ClickState::Neutral => ClickState::Neutral,
            ClickState::Started => ClickState::Active,
            ClickState::Active => ClickState::Active,
            ClickState::Completed => ClickState::Neutral,
        }
    }

    /// The phase after a button-up: a tracked click completes if the
    /// button came up over the component, and dissolves otherwise.
    pub open spec fn spec_release(self, hit: bool) -> Self {
        match self {
            ClickState::Started | ClickState::Active => if hit {
                ClickState::Completed
            } else {
                ClickState::Neutral
            },
            ClickState::Neutral | ClickState::Completed => ClickState::Neutral,
        }
    }
}

/// One click phase per tracked button.
#[derive(Debug, Copy, Clone, Eq, PartialEq, Structural)]
pub struct ClickStateMap {
    pub left: ClickState,
    pub middle: ClickState,
    pub right: ClickState,
}

impl Default for ClickStateMap {
    fn default() -> (r: Self)
        ensures
            r == (ClickStateMap {
                left: ClickState::Neutral,
                middle: ClickState::Neutral,
                right: ClickState::Neutral,
            }),
    {
        ClickStateMap {
            left: ClickState::Neutral,
            middle: ClickState::Neutral,
            right: ClickState::Neutral,
        }
    }
}

impl ClickStateMap {
    /// The phase stored for `button`.
    pub open spec fn spec_get(self, button: MouseButton) -> ClickState {
        match button {
            MouseButton::Left => self.left,
            MouseButton::Middle => self.middle,
            MouseButton::Right => self.right,
        }
    }

    /// The map with `button`'s phase replaced.
    pub open spec fn spec_set(self, button: MouseButton, new_state: ClickState) -> Self {
        match button {
            MouseButton::Left => ClickStateMap { left: new_state, ..self },
            MouseButton::Middle => ClickStateMap { middle: new_state, ..self },
            MouseButton::Right => ClickStateMap { right: new_state, ..self },
        }
    }

    pub fn get(&self, button: MouseButton) -> (r: ClickState)
        ensures
            r == self.spec_get(button),
    {
        match button {
            MouseButton::Left => self.left,
            MouseButton::Middle => self.middle,
            MouseButton::Right => self.right,
        }
    }

    pub fn set(&mut self, button: MouseButton, new_state: ClickState)
        ensures
            *final(self) == old(self).spec_set(button, new_state),
    {
        match button {
            MouseButton::Left => self.left = new_state,
            MouseButton::Middle => self.middle = new_state,
            MouseButton::Right => self.right = new_state,
        }
    }
}

/// Whether the pointer was last seen inside the component, outside it, or
/// not at all.
#[derive(Debug, Copy, Clone, Eq, PartialEq, Structural)]
pub enum HoverState {
    Undefined,
    Inside,
    Outside,
}

impl Default for HoverState {
    fn default() -> (r: Self)
        ensures
            r == HoverState::Undefined,
    {
        Self::Undefined
    }
}

/// The interaction state a [`MouseAware`] component accumulates across
/// frames.
#[derive(Debug, Copy, Clone, Eq, PartialEq, Structural)]
pub struct MouseAwareState {
    pub hover_state: HoverState,
    pub click_states: ClickStateMap,
}

impl Default for MouseAwareState {
    fn default() -> (r: Self)
        ensures
            r.hover_state == HoverState::Undefined,
            r.click_states == (ClickStateMap {
                left: ClickState::Neutral,
                middle: ClickState::Neutral,
                right: ClickState::Neutral,
            }),
    {
        MouseAwareState {
            hover_state: HoverState::Undefined,
            click_states: ClickStateMap {
                left: ClickState::Neutral,
                middle: ClickState::Neutral,
                right: ClickState::Neutral,
            },
        }
    }
}

impl MouseAwareState {
    /// Whether the pointer was last seen inside the component.
    pub fn hovering(&self) -> (r: bool)
        ensures
            r == (self.hover_state == HoverState::Inside),
    {
        match self.hover_state {
            HoverState::Inside => true,
            _ => false,
        }
    }

    /// Whether a click on `button` started this frame.
    pub fn click_started(&self, button: MouseButton) -> (r: bool)
        ensures
            r == (self.click_states.spec_get(button) == ClickState::Started),
    {
        match self.click_states.get(button) {
            ClickState::Started => true,
            _ => false,
        }
    }

    /// Whether a click on `button` completed this frame.
    pub fn click_completed(&self, button: MouseButton) -> (r: bool)
        ensures
            r == (self.click_states.spec_get(button) == ClickState::Completed),
    {
        match self.click_states.get(button) {
            ClickState::Completed => true,
            _ => false,
        }
    }

    /// The state after handling one event.
    pub open spec fn spec_handle(self, event: ComponentEvent) -> Self {
        match event {
            ComponentEvent::LoopStart => MouseAwareState {
                hover_state: self.hover_state,
                click_states: ClickStateMap {
                    left: self.click_states.left.spec_advance(),
                    middle: self.click_states.middle.spec_advance(),
                    right: self.click_states.right.spec_advance(),
                },
            },
            ComponentEvent::MouseMotion(fp) => MouseAwareState {
                hover_state: if fp.spec_is_hit() {
                    HoverState::Inside
                } else {
                    HoverState::Outside
                },
                click_states: self.click_states,
            },
            ComponentEvent::MouseButtonDown(btn, fp) => MouseAwareState {
                hover_state: self.hover_state,
                click_states: self.click_states.spec_set(
                    btn,
                    if fp.spec_is_hit() {
                        ClickState::Started
                    } else {
                        ClickState::Neutral
                    },
                ),
            },
            ComponentEvent::MouseButtonUp(btn, fp) => MouseAwareState {
                hover_state: self.hover_state,
                click_states: self.click_states.spec_set(
                    btn,
                    self.click_states.spec_get(btn).spec_release(fp.spec_is_hit()),
                ),
            },
        }
    }
}

/// The hit-testing component built on the four-phase click machine. Like
/// the plainer mouse sensor it observes the accumulated hit rectangle and
/// re-emits every event unchanged; unlike it, it also paints a hover
/// overlay when rendered.
pub struct MouseAware;

impl MouseAware {
    pub fn new() -> Self {
        MouseAware
    }
}

impl HandleEvent for MouseAware {
    type State = MouseAwareState;

    open spec fn event_out(&self, event: ComponentEvent) -> ComponentEvent {
        event
    }

    open spec fn handled(
        &self,
        pre: MouseAwareState,
        post: MouseAwareState,
        event: ComponentEvent,
    ) -> bool {
        post == pre.spec_handle(event)
    }

    fn handle_event(&self, state: &mut MouseAwareState, event: ComponentEvent) -> (out:
        ComponentEvent) {
        match event {
            ComponentEvent::LoopStart => {
                // Advance the transient click phases so no button gets
                // stuck between frames.
                state.click_states.set(
                    MouseButton::Left,
                    advance(state.click_states.get(MouseButton::Left)),
                );
                state.click_states.set(
                    MouseButton::Middle,
                    advance(state.click_states.get(MouseButton::Middle)),
                );
                state.click_states.set(
                    MouseButton::Right,
                    advance(state.click_states.get(MouseButton::Right)),
                );
            },
            ComponentEvent::MouseMotion(fp) => {
                state.hover_state = if fp.is_hit() {
                    HoverState::Inside
                } else {
                    HoverState::Outside
                };
            },
            ComponentEvent::MouseButtonDown(btn, fp) => {
                let new_state = if fp.is_hit() {
                    ClickState::Started
                } else {
                    ClickState::Neutral
                };
                state.click_states.set(btn, new_state);
            },
            ComponentEvent::MouseButtonUp(btn, fp) => {
                let hit = fp.is_hit();
                let new_state = match state.click_states.get(btn) {
                    ClickState::Started | ClickState::Active => if hit {
                        ClickState::Completed
                    } else {
                        ClickState::Neutral
                    },
                    ClickState::Neutral | ClickState::Completed => ClickState::Neutral,
                };
                state.click_states.set(btn, new_state);
            },
        }
        event
    }
}

impl<R: BlitSurface> Render<R> for MouseAware {
    type State = MouseAwareState;

    open spec fn render_out(&self, constraints: RenderConstraints) -> RenderConstraints {
        constraints
    }

    fn render(
        &self,
        state: &MouseAwareState,
        constraints: RenderConstraints,
        target: &mut R,
    ) -> (out: VuiResult<RenderConstraints>)
        ensures
            constraints.clip_rect.is_empty() ==> out is Ok,
    {
        if state.hovering() && !constraints.is_degenerate() {
            match target.fill(&constraints, 0, 100, 0) {
                Ok(_) => {
                },
                Err(e) => {
                    return Err(e);
                },
            }
        }
        Ok(constraints)
    }
}

/// The frame-boundary phase transition.
fn advance(state: ClickState) -> (r: ClickState)
    ensures
        r == state.spec_advance(),
{
    match state {
        ClickState::Neutral => ClickState::Neutral,
        ClickState::Started => ClickState::Active,
        ClickState::Active => ClickState::Active,
        ClickState::Completed => ClickState::Neutral,
    }
}

} // verus!
