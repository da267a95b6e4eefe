//! The hit-testing leaf. It observes events against the accumulated hit
//! rectangle and records hover and click state; it never transforms
//! coordinates and always re-emits the event unchanged.

use vstd::prelude::*;

use crate::component::ComponentEvent;
use crate::component::FramedPosition;
use crate::component::HandleEvent;
use crate::component::Render;
use crate::mouse::MouseButton;
use crate::mouse::click_state::ClickStates;
use crate::mouse::hover_state::HoverState;
use crate::render::RenderConstraints;
use crate::VuiResult;

verus! {

/// The interaction state a mouse sensor accumulates across frames: hover
/// tracking and per-button click tracking. Owned by whichever composite
/// widget instantiated the sensor; mutated only by event handling, read by
/// rendering and by the application between frames.
#[derive(Debug, Clone, Copy)]
pub struct MouseSensorState {
    pub hover_state: HoverState,
    pub click_states: ClickStates,
}

impl Default for MouseSensorState {
    /// Not hovering, all buttons up, no events pending.
    fn default() -> (r: Self)
        ensures
            r.hover_state == (HoverState { flags: 0 }),
            r.click_states == (ClickStates { click_state: 0, event_state: 0 }),
    {
        MouseSensorState {
            hover_state: HoverState { flags: 0 },
            click_states: ClickStates { click_state: 0, event_state: 0 },
        }
    }
}

impl MouseSensorState {
    /// The state after handling one event: a frame boundary clears the
    /// event bits; motion updates hover tracking against the hit test;
    /// button events feed click tracking, which abandons a button whose
    /// event fell outside the hit area.
    pub open spec fn spec_handle(self, event: ComponentEvent) -> Self {
        match event {
            ComponentEvent::LoopStart => MouseSensorState {
                hover_state: self.hover_state.spec_clear_event_state(),
                click_states: self.click_states.spec_clear_event_state(),
            },
            ComponentEvent::MouseMotion(fp) => MouseSensorState {
                hover_state: self.hover_state.spec_update(fp.spec_is_hit()),
                click_states: self.click_states,
            },
            ComponentEvent::MouseButtonDown(btn, fp) => MouseSensorState {
                hover_state: self.hover_state,
                click_states: if fp.spec_is_hit() {
                    self.click_states.spec_click(btn)
                } else {
                    self.click_states.spec_clear(btn)
                },
            },
            ComponentEvent::MouseButtonUp(btn, fp) => MouseSensorState {
                hover_state: self.hover_state,
                click_states: if fp.spec_is_hit() {
                    self.click_states.spec_unclick(btn)
                } else {
                    self.click_states.spec_clear(btn)
                },
            },
        }
    }

    /// Zeroes the event bits of both trackers; called once per frame.
    pub fn clear_event_states(&mut self)
        ensures
            final(self).hover_state == old(self).hover_state.spec_clear_event_state(),
            final(self).click_states == old(self).click_states.spec_clear_event_state(),
    {
        self.hover_state.clear_event_state();
        self.click_states.clear_event_state();
    }

    /// The hover tracker.
    pub fn hover_state(&self) -> (r: &HoverState)
        ensures
            r == self.hover_state,
    {
        &self.hover_state
    }

    /// The click tracker.
    pub fn click_states(&self) -> (r: &ClickStates)
        ensures
            r == self.click_states,
    {
        &self.click_states
    }
}

/// From any prior state, a button-down and a button-up that both hit the
/// tracked region complete a click on that button.
pub proof fn lemma_sensor_click_cycle(
    s: MouseSensorState,
    btn: MouseButton,
    down: FramedPosition,
    up: FramedPosition,
)
    requires
        down.spec_is_hit(),
        up.spec_is_hit(),
    ensures
        ({
            let after = s.spec_handle(ComponentEvent::MouseButtonDown(btn, down)).spec_handle(
                ComponentEvent::MouseButtonUp(btn, up),
            );
            after.click_states.spec_has_click_completed(btn)
        }),
{
    crate::mouse::click_state::lemma_click_unclick_completes(s.click_states, btn);
}

/// A button-down that missed the tracked region never turns a later
/// button-up into a completed click, wherever the button-up lands.
pub proof fn lemma_sensor_missed_press_never_completes(
    s: MouseSensorState,
    btn: MouseButton,
    down: FramedPosition,
    up: FramedPosition,
)
    requires
        !down.spec_is_hit(),
    ensures
        ({
            let after = s.spec_handle(ComponentEvent::MouseButtonDown(btn, down)).spec_handle(
                ComponentEvent::MouseButtonUp(btn, up),
            );
            !after.click_states.spec_has_click_completed(btn)
        }),
{
    let cleared = s.click_states.spec_clear(btn);
    let m = crate::mouse::spec_mask_for(btn);
    let cs = s.click_states.click_state;
    assert(m == 1 || m == 2 || m == 4);
    assert((cs & (m ^ 0b11111111)) & m != m) by (bit_vector)
        requires
            m == 1 || m == 2 || m == 4,
    ;
    if up.spec_is_hit() {
        crate::mouse::click_state::lemma_unclick_without_click(cleared, btn);
    } else {
        let es = cleared.event_state;
        assert((es & (m ^ 0b11111111)) & m != m) by (bit_vector)
            requires
                m == 1 || m == 2 || m == 4,
        ;
    }
}

/// The hit-testing leaf component. It holds no fixed size of its own: the
/// hit test is against the rectangle accumulated by the links before it.
pub struct MouseSensor;

impl MouseSensor {
    pub fn new() -> Self {
        MouseSensor
    }
}

impl HandleEvent for MouseSensor {
    type State = MouseSensorState;

    open spec fn event_out(&self, event: ComponentEvent) -> ComponentEvent {
        event
    }

    open spec fn handled(
        &self,
        pre: MouseSensorState,
        post: MouseSensorState,
        event: ComponentEvent,
    ) -> bool {
        post == pre.spec_handle(event)
    }

    fn handle_event(&self, state: &mut MouseSensorState, event: ComponentEvent) -> (out:
        ComponentEvent) {
        match event {
            ComponentEvent::LoopStart => {
                state.clear_event_states();
            },
            ComponentEvent::MouseMotion(fp) => {
                let hit = fp.is_hit();
                state.hover_state.update(hit);
            },
            ComponentEvent::MouseButtonDown(btn, fp) => {
                if fp.is_hit() {
                    state.click_states.click(btn);
                } else {
                    state.click_states.clear(btn);
                }
            },
            ComponentEvent::MouseButtonUp(btn, fp) => {
                if fp.is_hit() {
                    state.click_states.unclick(btn);
                } else {
                    state.click_states.clear(btn);
                }
            },
        }
        event
    }
}

impl<R> Render<R> for MouseSensor {
    type State = MouseSensorState;

    open spec fn render_out(&self, constraints: RenderConstraints) -> RenderConstraints {
        constraints
    }

    fn render(
        &self,
        state: &MouseSensorState,
        constraints: RenderConstraints,
        target: &mut R,
    ) -> (out: VuiResult<RenderConstraints>)
        ensures
            out is Ok,
    {
        Ok(constraints)
    }
}

} // verus!
