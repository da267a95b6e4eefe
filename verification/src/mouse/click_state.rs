//! The per-button click tracker used by the mouse sensor, together with the
//! laws of its accumulate-then-clear protocol.

use vstd::prelude::*;

use crate::bitops::ClearBits;
use crate::bitops::IsSet;
use crate::bitops::SetBits;
use crate::mouse::spec_mask_for;
use crate::mouse::MouseButton;

verus! {

/// The bit position a button occupies in the click-state masks.
pub fn mask_for(btn: MouseButton) -> (m: u8)
    ensures
        m == spec_mask_for(btn),
{
    match btn {
        MouseButton::Left => 1,
        MouseButton::Middle => 2,
        MouseButton::Right => 4,
    }
}

/// Per-button click tracking packed into two bitmasks: `click_state` holds
/// whether each button is currently down over the tracked region, and
/// `event_state` whether that button's debounced state changed this frame.
#[derive(Debug, Clone, Copy, Eq, PartialEq, Structural)]
pub struct ClickStates {
    pub click_state: u8,
    pub event_state: u8,
}

impl Default for ClickStates {
    /// All buttons up, no events pending.
    fn default() -> (r: Self)
        ensures
            r == (ClickStates { click_state: 0, event_state: 0 }),
    {
        ClickStates { click_state: 0, event_state: 0 }
    }
}

impl ClickStates {
    /// Whether `btn` is currently held down over the tracked region.
    pub open spec fn spec_is_down(self, btn: MouseButton) -> bool {
        self.click_state.spec_is_set(spec_mask_for(btn))
    }

    /// Whether a click on `btn` began this frame.
    pub open spec fn spec_has_click_started(self, btn: MouseButton) -> bool {
        let m = spec_mask_for(btn);
        self.click_state.spec_is_set(m) && self.event_state.spec_is_set(m)
    }

    /// Whether a click on `btn` completed this frame.
    pub open spec fn spec_has_click_completed(self, btn: MouseButton) -> bool {
        let m = spec_mask_for(btn);
        !self.click_state.spec_is_set(m) && self.event_state.spec_is_set(m)
    }

    /// The state after a button-down over the tracked region.
    pub open spec fn spec_click(self, btn: MouseButton) -> Self {
        let m = spec_mask_for(btn);
        ClickStates {
            click_state: self.click_state | m,
            event_state: self.event_state | m,
        }
    }

    /// The state after a button-up over the tracked region: the event bit is
    /// set only if the button was down, so that a button-up without a
    /// matching button-down never reads as a completed click.
    pub open spec fn spec_unclick(self, btn: MouseButton) -> Self {
        let m = spec_mask_for(btn);
        ClickStates {
            click_state: self.click_state & (m ^ 0b11111111),
            event_state: if self.click_state.spec_is_set(m) {
                self.event_state | m
            } else {
                self.event_state & (m ^ 0b11111111)
            },
        }
    }

    /// The state after the button's tracking is abandoned (the pointer left
    /// the region): both bits cleared.
    pub open spec fn spec_clear(self, btn: MouseButton) -> Self {
        let m = spec_mask_for(btn);
        ClickStates {
            click_state: self.click_state & (m ^ 0b11111111),
            event_state: self.event_state & (m ^ 0b11111111),
        }
    }

    /// The state at a frame boundary: every event bit zeroed.
    pub open spec fn spec_clear_event_state(self) -> Self {
        ClickStates { click_state: self.click_state, event_state: 0 }
    }

    /// Zeroes every event bit; called once per frame at the frame boundary.
    pub fn clear_event_state(&mut self)
        ensures
            *final(self) == old(self).spec_clear_event_state(),
    {
        self.event_state = 0;
    }

    pub fn has_click_started(&self, btn: MouseButton) -> (r: bool)
        ensures
            r == self.spec_has_click_started(btn),
    {
        let mask = mask_for(btn);
        self.click_state.is_set(mask) && self.event_state.is_set(mask)
    }

    pub fn has_click_completed(&self, btn: MouseButton) -> (r: bool)
        ensures
            r == self.spec_has_click_completed(btn),
    {
        let mask = mask_for(btn);
        !self.click_state.is_set(mask) && self.event_state.is_set(mask)
    }

    pub fn is_up(&self, btn: MouseButton) -> (r: bool)
        ensures
            r == !self.spec_is_down(btn),
    {
        !self.click_state.is_set(mask_for(btn))
    }

    pub fn is_down(&self, btn: MouseButton) -> (r: bool)
        ensures
            r == self.spec_is_down(btn),
    {
        self.click_state.is_set(mask_for(btn))
    }

    /// Records a button-down over the tracked region.
    pub fn click(&mut self, btn: MouseButton)
        ensures
            *final(self) == old(self).spec_click(btn),
    {
        let mask = mask_for(btn);
        self.click_state |= mask;
        self.event_state |= mask;
    }

    /// Records a button-up over the tracked region.
    pub fn unclick(&mut self, btn: MouseButton)
        ensures
            *final(self) == old(self).spec_unclick(btn),
    {
        let mask = mask_for(btn);

        if self.click_state.is_set(mask) {
            self.event_state.set_bits(mask);
        } else {
            self.event_state.clear_bits(mask);
        }

        self.click_state.clear_bits(mask);
    }

    /// Abandons tracking of `btn`.
    pub fn clear(&mut self, btn: MouseButton)
        ensures
            *final(self) == old(self).spec_clear(btn),
    {
        let mask = mask_for(btn);
        self.click_state.clear_bits(mask);
        self.event_state.clear_bits(mask);
    }
}

/// A button-down immediately reads as "click started" and "down".
pub proof fn lemma_click_starts(s: ClickStates, btn: MouseButton)
    ensures
        s.spec_click(btn).spec_has_click_started(btn),
        s.spec_click(btn).spec_is_down(btn),
{
    let m = spec_mask_for(btn);
    let cs = s.click_state;
    let es = s.event_state;
    assert((cs | m) & m == m && (es | m) & m == m) by (bit_vector);
}

/// A button-down followed by a button-up reads as "click completed" and
/// "up".
pub proof fn lemma_click_unclick_completes(s: ClickStates, btn: MouseButton)
    ensures
        s.spec_click(btn).spec_unclick(btn).spec_has_click_completed(btn),
        !s.spec_click(btn).spec_unclick(btn).spec_is_down(btn),
{
    let m = spec_mask_for(btn);
    let cs = s.click_state;
    let es = s.event_state;
    assert(m == 1 || m == 2 || m == 4);
    assert((cs | m) & m == m && (((cs | m) & (m ^ 0b11111111)) & m != m) && (((es | m) | m) & m
        == m)) by (bit_vector)
        requires
            m == 1 || m == 2 || m == 4,
    ;
}

/// A button-up with no tracked button-down never reads as a completed
/// click: the event bit is cleared, not set.
pub proof fn lemma_unclick_without_click(s: ClickStates, btn: MouseButton)
    requires
        !s.spec_is_down(btn),
    ensures
        !s.spec_unclick(btn).spec_has_click_completed(btn),
        !s.spec_unclick(btn).spec_is_down(btn),
{
    let m = spec_mask_for(btn);
    let cs = s.click_state;
    let es = s.event_state;
    assert(m == 1 || m == 2 || m == 4);
    assert(((es & (m ^ 0b11111111)) & m != m) && ((cs & (m ^ 0b11111111)) & m != m)) by (
    bit_vector)
        requires
            m == 1 || m == 2 || m == 4,
    ;
}

/// Clearing the event state ends every "click started" and "click
/// completed" signal while leaving "down"/"up" untouched.
pub proof fn lemma_clear_event_state(s: ClickStates, btn: MouseButton)
    ensures
        !s.spec_clear_event_state().spec_has_click_started(btn),
        !s.spec_clear_event_state().spec_has_click_completed(btn),
        s.spec_clear_event_state().spec_is_down(btn) == s.spec_is_down(btn),
{
    let m = spec_mask_for(btn);
    assert(m == 1 || m == 2 || m == 4);
    assert(0u8 & m != m) by (bit_vector)
        requires
            m == 1 || m == 2 || m == 4,
    ;
}

} // verus!
