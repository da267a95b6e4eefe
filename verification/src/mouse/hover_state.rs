//! The hover tracker used by the mouse sensor: a "hovering" bit plus a
//! "changed this frame" bit, with the laws of its edge-triggered protocol.

use vstd::prelude::*;

use crate::bitops::ClearBits;
use crate::bitops::IsSet;
use crate::bitops::SetBits;

verus! {

pub const HOVER_MASK: u8 = 0b00000001;

pub const EVENT_MASK: u8 = 0b00000010;

/// Hover tracking in two bits: whether the pointer is currently over the
/// tracked region, and whether that changed this frame.
#[derive(Debug, Copy, Clone, Eq, PartialEq, Structural)]
pub struct HoverState {
    pub flags: u8,
}

impl Default for HoverState {
    /// Not hovering, no event pending.
    fn default() -> (r: Self)
        ensures
            r == (HoverState { flags: 0 }),
    {
        HoverState { flags: 0 }
    }
}

impl HoverState {
    /// Whether the pointer is currently over the tracked region.
    pub open spec fn spec_is_hovering(self) -> bool {
        self.flags.spec_is_set(HOVER_MASK)
    }

    /// Whether the pointer entered the region this frame.
    pub open spec fn spec_has_entered(self) -> bool {
        self.flags.spec_is_set(HOVER_MASK | EVENT_MASK)
    }

    /// Whether the pointer left the region this frame.
    pub open spec fn spec_has_left(self) -> bool {
        !self.flags.spec_is_set(HOVER_MASK) && self.flags.spec_is_set(EVENT_MASK)
    }

    /// The state after observing whether the pointer is inside the region:
    /// the event bit is set exactly when the hover bit flips.
    pub open spec fn spec_update(self, inside: bool) -> Self {
        let flagged = if inside != self.spec_is_hovering() {
            self.flags | EVENT_MASK
        } else {
            self.flags
        };
        HoverState {
            flags: if inside {
                flagged | HOVER_MASK
            } else {
                flagged & (HOVER_MASK ^ 0b11111111)
            },
        }
    }

    /// The state at a frame boundary: the event bit zeroed.
    pub open spec fn spec_clear_event_state(self) -> Self {
        HoverState { flags: self.flags & (EVENT_MASK ^ 0b11111111) }
    }

    /// Zeroes the event bit; called once per frame at the frame boundary.
    pub fn clear_event_state(&mut self)
        ensures
            *final(self) == old(self).spec_clear_event_state(),
    {
        self.flags.clear_bits(EVENT_MASK);
    }

    pub fn is_hovering(&self) -> (r: bool)
        ensures
            r == self.spec_is_hovering(),
    {
        self.flags.is_set(HOVER_MASK)
    }

    pub fn has_entered(&self) -> (r: bool)
        ensures
            r == self.spec_has_entered(),
    {
        self.flags.is_set(HOVER_MASK | EVENT_MASK)
    }

    pub fn has_left(&self) -> (r: bool)
        ensures
            r == self.spec_has_left(),
    {
        !self.flags.is_set(HOVER_MASK) && self.flags.is_set(EVENT_MASK)
    }

    /// Records whether the pointer is inside the tracked region.
    pub fn update(&mut self, inside: bool)
        ensures
            *final(self) == old(self).spec_update(inside),
    {
        if inside != self.is_hovering() {
            self.flags.set_bits(EVENT_MASK);
        }

        if inside {
            self.flags.set_bits(HOVER_MASK)
        } else {
            self.flags.clear_bits(HOVER_MASK)
        }
    }
}

/// From the default state, one observation of "inside" reports hovering and
/// entering, not leaving.
pub proof fn lemma_hover_enter(s: HoverState)
    requires
        s == (HoverState { flags: 0 }),
    ensures
        s.spec_update(true).spec_is_hovering(),
        s.spec_update(true).spec_has_entered(),
        !s.spec_update(true).spec_has_left(),
{
    assert(0u8 & 1 != 1 && ((0u8 | 2) | 1) & 1 == 1 && ((0u8 | 2) | 1) & (1u8 | 2) == (1u8
        | 2)) by (bit_vector);
    assert(s.spec_update(true).flags == (0u8 | 2) | 1);
}

/// Observing "inside" while already hovering changes nothing, so repeated
/// observations in one frame cannot retrigger the entered signal.
pub proof fn lemma_hover_update_stable(s: HoverState)
    requires
        s.spec_is_hovering(),
    ensures
        s.spec_update(true) == s,
{
    let f = s.flags;
    assert(f & 1 == 1 ==> (f | 1) == f) by (bit_vector);
}

} // verus!
