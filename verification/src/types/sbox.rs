//! FFI-safe equivalent of [`Box<T>`].

use vstd::prelude::*;

use super::FfiSafeEquivalent;

verus! {

/// An owned box with a fixed field shape at the boundary. Its view is the
/// value it carries.
#[derive(Debug, Clone, PartialEq, Eq, PartialOrd, Ord, Hash)]
pub struct SBox<T> {
    inner: Box<T>,
}

impl<T> View for SBox<T> {
    type V = T;

    closed spec fn view(&self) -> T {
        *self.inner
    }
}

impl<T> SBox<T> {
    /// Boxes a value behind the boundary-stable allocator handle.
    pub fn new(value: T) -> (r: Self)
        ensures
            r@ == value,
    {
        SBox { inner: Box::new(value) }
    }

    /// Moves a native box in, rebinding its backing allocation to the
    /// boundary-stable allocator handle; the value is unchanged.
    pub fn from_box(value: Box<T>) -> (r: Self)
        ensures
            r@ == *value,
    {
        SBox { inner: value }
    }

    /// A borrow of the carried value.
    pub fn as_ref(&self) -> (r: &T)
        ensures
            *r == self@,
    {
        &*self.inner
    }
}

impl<T> FfiSafeEquivalent for SBox<T> {
    type Normal = Box<T>;

    fn from_normal(normal: Box<T>) -> (r: Self)
        ensures
            r@ == *normal,
    {
        SBox { inner: normal }
    }

    fn into_normal(self) -> (r: Box<T>)
        ensures
            *r == self@,
    {
        self.inner
    }
}

/// Moving a native box in and back out returns a box carrying the same
/// value.
pub proof fn lemma_sbox_round_trip<T>(x: Box<T>, s: SBox<T>, y: Box<T>)
    requires
        s@ == *x,
        *y == s@,
    ensures
        *y == *x,
{
}

} // verus!
