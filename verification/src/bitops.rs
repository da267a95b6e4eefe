//! Compact set/clear/test operations on small integers, used by the
//! interaction-state trackers to keep per-button state without allocation.

use vstd::prelude::*;

verus! {

/// Tests whether every bit of `mask` is set.
pub trait IsSet: Sized {
    spec fn spec_is_set(&self, mask: Self) -> bool;

    fn is_set(&self, mask: Self) -> (r: bool)
        ensures
            r == self.spec_is_set(mask),
    ;
}

impl IsSet for u8 {
    open spec fn spec_is_set(&self, mask: u8) -> bool {
        *self & mask == mask
    }

    fn is_set(&self, mask: u8) -> (r: bool) {
        *self & mask == mask
    }
}

/// Sets every bit of `mask`.
pub trait SetBits: Sized {
    spec fn spec_set_bits(&self, mask: Self) -> Self;

    fn set_bits(&mut self, mask: Self)
        ensures
            *final(self) == old(self).spec_set_bits(mask),
    ;
}

impl SetBits for u8 {
    open spec fn spec_set_bits(&self, mask: u8) -> u8 {
        *self | mask
    }

    fn set_bits(&mut self, mask: u8) {
        *self |= mask;
    }
}

/// Clears every bit of `mask`.
pub trait ClearBits: Sized {
    spec fn spec_clear_bits(&self, mask: Self) -> Self;

    fn clear_bits(&mut self, mask: Self)
        ensures
            *final(self) == old(self).spec_clear_bits(mask),
    ;
}

impl ClearBits for u8 {
    open spec fn spec_clear_bits(&self, mask: u8) -> u8 {
        *self & (mask ^ 0b11111111)
    }

    fn clear_bits(&mut self, mask: u8) {
        *self &= mask ^ 0b11111111;
    }
}

} // verus!
