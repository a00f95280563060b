//! The capability by which a container of extension payloads grows: it starts
//! empty and takes one more typed payload at a time.

use vstd::prelude::*;
use crate::hlist::{Cons, Nil};

verus! {

/// A container of extension payloads that has an empty form.
pub trait Extendable {
    /// The container without any payload.
    type Empty;

    /// The value of the empty container.
    spec fn empty_spec() -> Self::Empty;

    /// Makes the empty container.
    fn empty() -> (r: Self::Empty)
        ensures
            r == Self::empty_spec(),
    ;
}

/// A container of extension payloads that can take one more payload of type `T`.
pub trait Extend<T>: Sized {
    /// The container after it has taken a `T`.
    type Target;

    /// The container that holds `t` and all that `self` holds.
    spec fn ext_spec(self, t: T) -> Self::Target;

    /// Adds the payload `t`.
    fn ext(self, t: T) -> (r: Self::Target)
        ensures
            r == self.ext_spec(t),
    ;

    /// Adds the payload that `f` makes.
    fn ext_with<F>(self, f: F) -> (r: Self::Target) where F: FnOnce() -> T
        requires
            f.requires(()),
        ensures
            exists|t: T| f.ensures((), t) && r == self.ext_spec(t),
    ;
}

impl Extendable for Nil {
    type Empty = Nil;

    open spec fn empty_spec() -> Nil {
        Nil
    }

    fn empty() -> (r: Nil) {
        Nil
    }
}

impl<T, U> Extendable for Cons<T, U> {
    type Empty = Nil;

    open spec fn empty_spec() -> Nil {
        Nil
    }

    fn empty() -> (r: Nil) {
        Nil
    }
}

impl<T> Extend<T> for Nil {
    type Target = Cons<T, Nil>;

    open spec fn ext_spec(self, t: T) -> Cons<T, Nil> {
        Cons { head: t, tail: Nil }
    }

    fn ext(self, t: T) -> (r: Cons<T, Nil>) {
        Nil::cons(t)
    }

    fn ext_with<F>(self, f: F) -> (r: Cons<T, Nil>) where F: FnOnce() -> T {
        let t = f();
        self.ext(t)
    }
}

impl<T, U, V> Extend<T> for Cons<U, V> {
    type Target = Cons<T, Cons<U, V>>;

    open spec fn ext_spec(self, t: T) -> Cons<T, Cons<U, V>> {
        Cons { head: t, tail: self }
    }

    fn ext(self, t: T) -> (r: Cons<T, Cons<U, V>>) {
        self.cons(t)
    }

    fn ext_with<F>(self, f: F) -> (r: Cons<T, Cons<U, V>>) where F: FnOnce() -> T {
        let t = f();
        self.ext(t)
    }
}

} // verus!
