//! FFI-safe equivalent of [`Vec<T>`].

use vstd::prelude::*;

use super::FfiSafeEquivalent;

verus! {

/// A vector with a fixed field shape at the boundary. Its view is the
/// sequence of elements it carries.
#[derive(Debug, Clone, PartialEq, Eq, PartialOrd, Ord, Hash)]
pub struct SVec<T> {
    inner: Vec<T>,
}

impl<T> View for SVec<T> {
    type V = Seq<T>;

    closed spec fn view(&self) -> Seq<T> {
        self.inner@
    }
}

impl<T> SVec<T> {
    /// Moves a native vector in; the elements are unchanged.
    pub fn from_vec(value: Vec<T>) -> (r: Self)
        ensures
            r@ == value@,
    {
        SVec { inner: value }
    }

    /// Moves the elements back out as a native vector, consuming the
    /// container.
    pub fn into_vec(self) -> (r: Vec<T>)
        ensures
            r@ == self@,
    {
        self.inner
    }

    /// Moves a native vector in, rebinding its backing allocation to the
    /// boundary-stable allocator handle; the elements are unchanged.
    pub fn convert(value: Vec<T>) -> (r: Self)
        ensures
            r@ == value@,
    {
        SVec { inner: value }
    }

    /// An empty vector.
    pub fn new() -> (r: Self)
        ensures
            r@ == Seq::<T>::empty(),
    {
        SVec { inner: Vec::new() }
    }

    pub fn len(&self) -> (r: usize)
        ensures
            r == self@.len(),
    {
        self.inner.len()
    }

    pub fn get(&self, i: usize) -> (r: &T)
        requires
            i < self@.len(),
        ensures
            *r == self@[i as int],
    {
        &self.inner[i]
    }

    pub fn push(&mut self, value: T)
        ensures
            final(self)@ == old(self)@.push(value),
    {
        self.inner.push(value);
    }
}

impl<T> FfiSafeEquivalent for SVec<T> {
    type Normal = Vec<T>;

    fn from_normal(normal: Vec<T>) -> (r: Self)
        ensures
            r@ == normal@,
    {
        SVec { inner: normal }
    }

    fn into_normal(self) -> (r: Vec<T>)
        ensures
            r@ == self@,
    {
        self.inner
    }
}

/// Moving a native vector in and back out returns a vector with the same
/// elements, without touching them.
pub proof fn lemma_svec_round_trip<T>(x: Vec<T>, s: SVec<T>, y: Vec<T>)
    requires
        s@ == x@,
        y@ == s@,
    ensures
        y@ == x@,
{
}

} // verus!
