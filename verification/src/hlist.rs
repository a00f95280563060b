//! A heterogeneous list: the container in which extension payloads accumulate.

use vstd::prelude::*;

verus! {

/// The empty heterogeneous list.
#[derive(Clone, Copy, Debug, PartialEq, Eq, Hash)]
pub struct Nil;

/// A heterogeneous list with at least one element.
#[derive(Clone, Debug, PartialEq, Eq, Hash)]
pub struct Cons<T, U = Nil> {
    /// The element added last.
    pub head: T,
    /// The elements added before it.
    pub tail: U,
}

impl Default for Nil {
    fn default() -> (r: Self)
        ensures
            r == Nil,
    {
        Nil
    }
}

impl Nil {
    /// The list that holds `value` alone.
    pub fn cons<T>(value: T) -> (r: Cons<T, Nil>)
        ensures
            r == (Cons { head: value, tail: Nil }),
    {
        Cons { head: value, tail: Nil }
    }
}

impl<T, U> Cons<T, U> {
    /// The list with `value` put in front of the elements of `self`.
    pub fn cons<V>(self, value: V) -> (r: Cons<V, Cons<T, U>>)
        ensures
            r == (Cons { head: value, tail: self }),
    {
        Cons { head: value, tail: self }
    }
}

} // verus!
