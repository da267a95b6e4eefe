//! Mouse buttons and per-button interaction state.
//!
//! The trackers here convert a stream of raw pointer events into debounced,
//! edge-triggered signals: one "current" bit plus one "changed this frame"
//! bit per tracked boolean. The changed bits are cleared exactly once per
//! frame, at the frame-boundary event, so that a single discrete mouse-up
//! becomes a one-frame-wide "was clicked" signal that application code can
//! poll between frames.

use vstd::prelude::*;

pub mod click_state;
pub mod hover_state;

pub use click_state::ClickStates;
pub use hover_state::HoverState;

verus! {

/// The closed set of tracked mouse buttons. Further buttons would take a
/// wider backing integer in the click trackers.
#[derive(Debug, Copy, Clone, Eq, PartialEq, Structural)]
pub enum MouseButton {
    Left,
    Middle,
    Right,
}

impl MouseButton {
    /// Maps a raw button identifier, as the input source reports it, onto
    /// the closed button set. An unrecognized identifier yields nothing
    /// and is to be discarded silently.
    pub fn from_code(code: u8) -> (r: Option<MouseButton>)
        ensures
            r == match code {
                1u8 => Some(MouseButton::Left),
                2u8 => Some(MouseButton::Middle),
                3u8 => Some(MouseButton::Right),
                _ => None::<MouseButton>,
            },
    {
        match code {
            1 => Some(MouseButton::Left),
            2 => Some(MouseButton::Middle),
            3 => Some(MouseButton::Right),
            _ => None,
        }
    }
}

/// The bit position a button occupies in the click-state masks.
pub open spec fn spec_mask_for(btn: MouseButton) -> u8 {
    match btn {
        MouseButton::Left => 1,
        MouseButton::Middle => 2,
        MouseButton::Right => 4,
    }
}

/// Per-button click tracking packed into two bitmasks: `click_state` holds
/// whether each button is currently down over the tracked region, and
/// `event_state` whether that button's debounced state changed this frame.
#[derive(Debug, Clone, Copy, Eq, PartialEq, Structural)]
pub struct MouseClickStates {
    pub click_state: u8,
    pub event_state: u8,
}

impl Default for MouseClickStates {
    /// All buttons up, no events pending.
    fn default() -> (r: Self)
        ensures
            r == (MouseClickStates { click_state: 0, event_state: 0 }),
    {
        MouseClickStates { click_state: 0, event_state: 0 }
    }
}

impl MouseClickStates {
    /// Whether `btn` is currently held down over the tracked region.
    pub open spec fn spec_is_down(self, btn: MouseButton) -> bool {
        self.click_state & spec_mask_for(btn) != 0
    }

    /// Whether a click on `btn` began this frame.
    pub open spec fn spec_is_click_started(self, btn: MouseButton) -> bool {
        self.click_state & spec_mask_for(btn) != 0 && self.event_state & spec_mask_for(btn) != 0
    }

    /// Whether a click on `btn` completed this frame.
    pub open spec fn spec_is_click_completed(self, btn: MouseButton) -> bool {
        self.click_state & spec_mask_for(btn) == 0 && self.event_state & spec_mask_for(btn) != 0
    }

    /// The state after a button-down over the tracked region.
    pub open spec fn spec_click(self, btn: MouseButton) -> Self {
        let m = spec_mask_for(btn);
        MouseClickStates {
            click_state: self.click_state | m,
            event_state: self.event_state | m,
        }
    }

    /// The state after a button-up over the tracked region: the event bit is
    /// set only if the button was down, so that a button-up without a
    /// matching button-down never reads as a completed click.
    pub open spec fn spec_unclick(self, btn: MouseButton) -> Self {
        let m = spec_mask_for(btn);
        MouseClickStates {
            click_state: self.click_state & (m ^ 0b11111111),
            event_state: if self.click_state & m != 0 {
                self.event_state | m
            } else {
                self.event_state & (m ^ 0b11111111)
            },
        }
    }

    /// The state after the button's tracking is abandoned (the pointer left
    /// the region): both bits cleared.
    pub open spec fn spec_clear(self, btn: MouseButton) -> Self {
        let m = spec_mask_for(btn);
        MouseClickStates {
            click_state: self.click_state & (m ^ 0b11111111),
            event_state: self.event_state & (m ^ 0b11111111),
        }
    }

    fn mask_for(btn: MouseButton) -> (m: u8)
        ensures
            m == spec_mask_for(btn),
    {
        match btn {
            MouseButton::Left => 1,
            MouseButton::Middle => 2,
            MouseButton::Right => 4,
        }
    }

    fn inverse_mask(mask: u8) -> (r: u8)
        ensures
            r == mask ^ 0b11111111,
    {
        mask ^ 0b11111111
    }

    /// Zeroes every event bit; called once per frame at the frame boundary.
    pub fn clear_event_state(&mut self)
        ensures
            *final(self) == (MouseClickStates {
                click_state: old(self).click_state,
                event_state: 0,
            }),
    {
        self.event_state = 0;
    }

    pub fn is_click_started(&self, btn: MouseButton) -> (r: bool)
        ensures
            r == self.spec_is_click_started(btn),
    {
        let mask = Self::mask_for(btn);
        self.click_state & mask != 0 && self.event_state & mask != 0
    }

    pub fn is_click_completed(&self, btn: MouseButton) -> (r: bool)
        ensures
            r == self.spec_is_click_completed(btn),
    {
        let mask = Self::mask_for(btn);
        self.click_state & mask == 0 && self.event_state & mask != 0
    }

    pub fn is_up(&self, btn: MouseButton) -> (r: bool)
        ensures
            r == !self.spec_is_down(btn),
    {
        self.click_state & Self::mask_for(btn) == 0
    }

    pub fn is_down(&self, btn: MouseButton) -> (r: bool)
        ensures
            r == self.spec_is_down(btn),
    {
        self.click_state & Self::mask_for(btn) != 0
    }

    /// Records a button-down over the tracked region.
    pub fn click(&mut self, btn: MouseButton)
        ensures
            *final(self) == old(self).spec_click(btn),
    {
        let mask = Self::mask_for(btn);
        self.click_state |= mask;
        self.event_state |= mask;
    }

    /// Records a button-up over the tracked region.
    pub fn unclick(&mut self, btn: MouseButton)
        ensures
            *final(self) == old(self).spec_unclick(btn),
    {
        let mask = Self::mask_for(btn);
        let inverse_mask = Self::inverse_mask(mask);

        if self.click_state & mask != 0 {
            self.event_state |= mask;
        } else {
            self.event_state &= inverse_mask;
        }

        self.click_state &= inverse_mask;
    }

    /// Abandons tracking of `btn`.
    pub fn clear(&mut self, btn: MouseButton)
        ensures
            *final(self) == old(self).spec_clear(btn),
    {
        let mask = Self::inverse_mask(Self::mask_for(btn));
        self.click_state &= mask;
        self.event_state &= mask;
    }
}

} // verus!
