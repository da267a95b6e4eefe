//! Saturating conversions between the signed coordinate domain and the
//! unsigned extent domain of the render backend.

use vstd::prelude::*;

verus! {

/// A value-to-value conversion that saturates instead of failing: values
/// outside the target range are clamped to the nearest representable value.
pub trait LossyFrom<T>: Sized {
    spec fn spec_lossy_from(value: T) -> Self;

    fn lossy_from(value: T) -> (r: Self)
        ensures
            r == Self::spec_lossy_from(value),
    ;
}

/// The reverse direction of [`LossyFrom`], implemented for every pair of
/// types with a `LossyFrom` implementation.
pub trait LossyInto<T>: Sized {
    spec fn spec_lossy_into(self) -> T;

    fn lossy_into(self) -> (r: T)
        ensures
            r == self.spec_lossy_into(),
    ;
}

impl<T, U: LossyFrom<T>> LossyInto<U> for T {
    open spec fn spec_lossy_into(self) -> U {
        U::spec_lossy_from(self)
    }

    fn lossy_into(self) -> (r: U) {
        U::lossy_from(self)
    }
}

impl LossyFrom<i32> for u32 {
    open spec fn spec_lossy_from(value: i32) -> u32 {
        if value < 0 {
            0
        } else {
            value as u32
        }
    }

    fn lossy_from(value: i32) -> (r: u32) {
        if value < 0 {
            0
        } else {
            value as u32
        }
    }
}

impl LossyFrom<u32> for i32 {
    open spec fn spec_lossy_from(value: u32) -> i32 {
        if value > i32::MAX as u32 {
            i32::MAX
        } else {
            value as i32
        }
    }

    fn lossy_from(value: u32) -> (r: i32) {
        if value > i32::MAX as u32 {
            i32::MAX
        } else {
            value as i32
        }
    }
}

} // verus!
