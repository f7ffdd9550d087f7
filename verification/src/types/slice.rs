//! FFI-safe equivalent of [`&'a [T]`][slice].

use vstd::prelude::*;

use super::FfiSafeEquivalent;

verus! {

/// A borrowed slice with a fixed field shape at the boundary. Its view is
/// the sequence of elements it refers to.
#[derive(Debug, Clone, Copy, PartialEq, Eq, PartialOrd, Ord, Hash)]
pub struct SSlice<'a, T> {
    inner: &'a [T],
}

impl<'a, T> View for SSlice<'a, T> {
    type V = Seq<T>;

    closed spec fn view(&self) -> Seq<T> {
        self.inner@
    }
}

impl<'a, T> SSlice<'a, T> {
    /// Borrows a native slice; the elements seen are unchanged.
    pub fn new(normal: &'a [T]) -> (r: Self)
        ensures
            r@ == normal@,
    {
        SSlice { inner: normal }
    }

    /// Borrows a native slice; the elements seen are unchanged.
    pub fn from_slice(slice: &'a [T]) -> (r: Self)
        ensures
            r@ == slice@,
    {
        SSlice { inner: slice }
    }

    /// The borrowed native slice.
    pub fn to_slice(&self) -> (r: &'a [T])
        ensures
            r@ == self@,
    {
        self.inner
    }

    /// Converts back to the native slice, consuming the handle.
    pub fn into_slice(self) -> (r: &'a [T])
        ensures
            r@ == self@,
    {
        self.inner
    }

    /// Mutable access to the handle itself: replaces which slice this handle
    /// borrows and hands back the slice borrowed before.
    pub fn as_slice_mut(&mut self, slice: &'a [T]) -> (r: &'a [T])
        ensures
            final(self)@ == slice@,
            r@ == old(self)@,
    {
        let prev = self.inner;
        self.inner = slice;
        prev
    }
}

impl<'a, T> FfiSafeEquivalent for SSlice<'a, T> {
    type Normal = &'a [T];

    fn from_normal(normal: &'a [T]) -> (r: Self)
        ensures
            r@ == normal@,
    {
        SSlice { inner: normal }
    }

    fn into_normal(self) -> (r: &'a [T])
        ensures
            r@ == self@,
    {
        self.inner
    }
}

/// Wrapping a native slice and unwrapping it again yields a slice seeing the
/// same elements.
pub proof fn lemma_sslice_round_trip<T>(x: &[T], s: SSlice<'_, T>, y: &[T])
    requires
        s@ == x@,
        y@ == s@,
    ensures
        y@ == x@,
{
}

} // verus!

verus! {

/// FFI-safe equivalent of [`&'a mut [T]`][slice]: an exclusively borrowed
/// slice with a fixed field shape at the boundary. Its view is the sequence
/// of elements it refers to.
#[derive(Debug)]
pub struct SMutSlice<'a, T> {
    inner: &'a mut [T],
}

impl<'a, T> View for SMutSlice<'a, T> {
    type V = Seq<T>;

    closed spec fn view(&self) -> Seq<T> {
        self.inner@
    }
}

impl<'a, T> SMutSlice<'a, T> {
    /// Borrows a native slice exclusively; the elements seen are unchanged.
    pub fn from_slice(slice: &'a mut [T]) -> (r: Self)
        ensures
            r@ == old(slice)@,
    {
        SMutSlice { inner: slice }
    }

    /// A shared look at the borrowed elements.
    pub fn to_slice(&self) -> (r: &[T])
        ensures
            r@ == self@,
    {
        self.inner
    }

    /// Converts back to the native exclusive slice, consuming the handle.
    pub fn into_slice(self) -> (r: &'a mut [T])
        ensures
            r@ == self@,
    {
        self.inner
    }
}

impl<'a, T> FfiSafeEquivalent for SMutSlice<'a, T> {
    type Normal = &'a mut [T];

    fn from_normal(normal: &'a mut [T]) -> (r: Self)
        ensures
            r@ == old(normal)@,
    {
        SMutSlice { inner: normal }
    }

    fn into_normal(self) -> (r: &'a mut [T])
        ensures
            r@ == self@,
    {
        self.inner
    }
}

} // verus!
