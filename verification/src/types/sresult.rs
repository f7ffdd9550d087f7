//! FFI-safe equivalent of [`Result<T, E>`].

use vstd::prelude::*;

use super::FfiSafeEquivalent;

verus! {

/// A success-or-error value with a fixed tag layout at the boundary. Its
/// view is the native result it stands for.
#[derive(Debug, PartialEq)]
pub enum SResult<T, E> {
    SOk(T),
    SErr(E),
}

impl<T, E> View for SResult<T, E> {
    type V = Result<T, E>;

    open spec fn view(&self) -> Result<T, E> {
        match self {
            SResult::SOk(v) => Ok(*v),
            SResult::SErr(e) => Err(*e),
        }
    }
}

impl<T, E> SResult<T, E> {
    /// Moves a native result in; the carried value or error is unchanged.
    pub fn from_result(value: Result<T, E>) -> (r: Self)
        ensures
            r@ == value,
    {
        match value {
            Ok(v) => SResult::SOk(v),
            Err(e) => SResult::SErr(e),
        }
    }

    /// Moves the carried value or error back out as a native result.
    pub fn into_result(self) -> (r: Result<T, E>)
        ensures
            r == self@,
    {
        match self {
            SResult::SOk(v) => Ok(v),
            SResult::SErr(e) => Err(e),
        }
    }
}

impl<T, E> FfiSafeEquivalent for SResult<T, E> {
    type Normal = Result<T, E>;

    fn from_normal(normal: Result<T, E>) -> (r: Self)
        ensures
            r@ == normal,
    {
        SResult::from_result(normal)
    }

    fn into_normal(self) -> (r: Result<T, E>)
        ensures
            r == self@,
    {
        self.into_result()
    }
}

/// Moving a native result in and back out returns exactly the same value.
pub proof fn lemma_sresult_round_trip<T, E>(x: Result<T, E>, s: SResult<T, E>, y: Result<T, E>)
    requires
        s@ == x,
        y == s@,
    ensures
        y == x,
{
}

} // verus!
