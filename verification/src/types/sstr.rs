//! FFI-safe equivalent of [`&'a str`][str].

use vstd::prelude::*;

use vstd::string::StringSliceAdditionalSpecFns;

use super::slice::SSlice;
use super::FfiSafeEquivalent;

verus! {

/// A borrowed string with a fixed field shape at the boundary: a byte slice
/// known to hold well-formed text. Its view is the character sequence.
#[derive(Debug, Clone, Copy, PartialEq, Eq, PartialOrd, Ord, Hash)]
pub struct SStr<'a> {
    inner: &'a str,
}

impl<'a> View for SStr<'a> {
    type V = Seq<char>;

    closed spec fn view(&self) -> Seq<char> {
        self.inner@
    }
}

impl<'a> SStr<'a> {
    /// Borrows a native string; the characters seen are unchanged.
    pub fn from_str(s: &'a str) -> (r: Self)
        ensures
            r@ == s@,
    {
        SStr { inner: s }
    }

    /// The borrowed native string.
    pub fn to_str(&self) -> (r: &'a str)
        ensures
            r@ == self@,
    {
        self.inner
    }

    /// The borrowed text as an FFI-safe byte slice: the fixed-shape handle
    /// that actually crosses the boundary.
    pub fn as_byte_slice(&self) -> (r: SSlice<'a, u8>)
        ensures
            r@ == self.spec_bytes_view(),
    {
        SSlice::new(self.inner.as_bytes())
    }

    /// The bytes of the borrowed text.
    pub closed spec fn spec_bytes_view(&self) -> Seq<u8> {
        self.inner.spec_bytes()
    }
}

impl<'a> FfiSafeEquivalent for SStr<'a> {
    type Normal = &'a str;

    fn from_normal(normal: &'a str) -> (r: Self)
        ensures
            r@ == normal@,
    {
        SStr { inner: normal }
    }

    fn into_normal(self) -> (r: &'a str)
        ensures
            r@ == self@,
    {
        self.inner
    }
}

/// Wrapping a native string and unwrapping it again yields a string with the
/// same characters.
pub proof fn lemma_sstr_round_trip(x: &str, s: SStr<'_>, y: &str)
    requires
        s@ == x@,
        y@ == s@,
    ensures
        y@ == x@,
{
}

} // verus!

verus! {

/// FFI-safe equivalent of [`&'a mut str`][str]: exclusively borrowed text
/// with a fixed field shape at the boundary. Its view is the character
/// sequence.
#[derive(Debug)]
pub struct SMutStr<'a> {
    inner: &'a mut str,
}

impl<'a> View for SMutStr<'a> {
    type V = Seq<char>;

    closed spec fn view(&self) -> Seq<char> {
        self.inner@
    }
}

impl<'a> SMutStr<'a> {
    /// A shared look at the borrowed text.
    pub fn to_str(&self) -> (r: &str)
        ensures
            r@ == self@,
    {
        self.inner
    }
}

impl<'a> FfiSafeEquivalent for SMutStr<'a> {
    type Normal = &'a mut str;

    fn from_normal(normal: &'a mut str) -> (r: Self)
        ensures
            r@ == old(normal)@,
    {
        SMutStr { inner: normal }
    }

    fn into_normal(self) -> (r: &'a mut str)
        ensures
            r@ == self@,
    {
        self.inner
    }
}

} // verus!
