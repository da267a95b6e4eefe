//! Appending an element to a tuple, used to grow a chain's state tuple one
//! component at a time.

use vstd::prelude::*;

verus! {

/// Appends a value to a tuple, yielding a tuple one element longer.
pub trait TupleExtend<T>: Sized {
    type ResultType;

    spec fn spec_extend(self, t: T) -> Self::ResultType;

    fn extend(self, t: T) -> (r: Self::ResultType)
        ensures
            r == self.spec_extend(t),
    ;
}

impl<T> TupleExtend<T> for () {
    type ResultType = (T,);

    open spec fn spec_extend(self, t: T) -> (T,) {
        (t,)
    }

    fn extend(self, t: T) -> (r: (T,)) {
        (t,)
    }
}

impl<A, T> TupleExtend<T> for (A,) {
    type ResultType = (A, T);

    open spec fn spec_extend(self, t: T) -> (A, T) {
        (self.0, t)
    }

    fn extend(self, t: T) -> (r: (A, T)) {
        (self.0, t)
    }
}

impl<A, B, T> TupleExtend<T> for (A, B) {
    type ResultType = (A, B, T);

    open spec fn spec_extend(self, t: T) -> (A, B, T) {
        (self.0, self.1, t)
    }

    fn extend(self, t: T) -> (r: (A, B, T)) {
        (self.0, self.1, t)
    }
}

impl<A, B, C, T> TupleExtend<T> for (A, B, C) {
    type ResultType = (A, B, C, T);

    open spec fn spec_extend(self, t: T) -> (A, B, C, T) {
        (self.0, self.1, self.2, t)
    }

    fn extend(self, t: T) -> (r: (A, B, C, T)) {
        (self.0, self.1, self.2, t)
    }
}

} // verus!
