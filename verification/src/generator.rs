//! Cursor-style traversal of a collection of components, used to drive
//! variable-length component lists without an iterator object borrowing
//! the collection.

use vstd::prelude::*;

verus! {

/// Yields the elements of a collection one at a time, advancing an
/// externally held cursor.
pub trait Generator {
    type Item;

    /// How many elements the traversal visits.
    spec fn spec_len(&self) -> nat;

    /// The element the traversal yields at position `i`.
    spec fn spec_index(&self, i: int) -> Self::Item;

    /// Yields the element at the cursor and advances it, or yields nothing
    /// once the cursor has passed the last element.
    fn next<'a>(&'a self, iter_state: &mut usize) -> (out: Option<&'a Self::Item>)
        ensures
            *old(iter_state) < self.spec_len() ==> {
                &&& *final(iter_state) == *old(iter_state) + 1
                &&& out matches Some(x) && *x == self.spec_index(*old(iter_state) as int)
            },
            *old(iter_state) >= self.spec_len() ==> {
                &&& *final(iter_state) == *old(iter_state)
                &&& out is None
            },
    ;
}

/// Yields the elements of a collection one at a time for mutation,
/// advancing an externally held cursor.
pub trait GeneratorMut: Sized {
    type Item;

    /// How many elements the traversal visits.
    spec fn spec_len_mut(&self) -> nat;

    /// The element the traversal yields at position `i`.
    spec fn spec_index_mut(&self, i: int) -> Self::Item;

    /// Yields the element at the cursor for mutation and advances the
    /// cursor, or yields nothing once it has passed the last element. Only
    /// the yielded element changes; every other element stays.
    fn next_mut<'a>(&'a mut self, iter_state: &mut usize) -> (out: Option<&'a mut Self::Item>)
        ensures
            *old(iter_state) < old(self).spec_len_mut() ==> {
                &&& *final(iter_state) == *old(iter_state) + 1
                &&& out matches Some(element) && {
                    &&& *element == old(self).spec_index_mut(*old(iter_state) as int)
                    &&& final(self).spec_len_mut() == old(self).spec_len_mut()
                    &&& forall|j: int|
                        0 <= j < old(self).spec_len_mut() && j != *old(iter_state)
                            ==> final(self).spec_index_mut(j) == old(self).spec_index_mut(j)
                    &&& final(self).spec_index_mut(*old(iter_state) as int) == *final(element)
                }
            },
            *old(iter_state) >= old(self).spec_len_mut() ==> {
                &&& *final(iter_state) == *old(iter_state)
                &&& out is None
                &&& *final(self) == *old(self)
            },
    ;
}

impl<T> Generator for Vec<T> {
    type Item = T;

    open spec fn spec_len(&self) -> nat {
        self@.len()
    }

    open spec fn spec_index(&self, i: int) -> T {
        self@[i]
    }

    fn next<'a>(&'a self, iter_state: &mut usize) -> (out: Option<&'a T>) {
        if *iter_state < self.len() {
            let out = &self[*iter_state];
            *iter_state = *iter_state + 1;
            Some(out)
        } else {
            None
        }
    }
}

impl<T> GeneratorMut for Vec<T> {
    type Item = T;

    open spec fn spec_len_mut(&self) -> nat {
        self@.len()
    }

    open spec fn spec_index_mut(&self, i: int) -> T {
        self@[i]
    }

    fn next_mut<'a>(&'a mut self, iter_state: &mut usize) -> (out: Option<&'a mut T>) {
        if *iter_state < self.len() {
            let i = *iter_state;
            *iter_state = i + 1;
            Some(&mut self[i])
        } else {
            None
        }
    }
}

} // verus!
