//! FFI-safe equivalent of [`Option<T>`].

use vstd::prelude::*;

use super::FfiSafeEquivalent;

verus! {

/// An optional value with a fixed tag layout at the boundary. Its view is
/// the native option it stands for.
#[derive(Debug, PartialEq, Clone)]
pub enum SOption<T> {
    SSome(T),
    SNone,
}

impl<T> View for SOption<T> {
    type V = Option<T>;

    open spec fn view(&self) -> Option<T> {
        match self {
            SOption::SSome(v) => Some(*v),
            SOption::SNone => None,
        }
    }
}

impl<T> SOption<T> {
    /// Moves a native option in; the carried value is unchanged.
    pub fn from_option(value: Option<T>) -> (r: Self)
        ensures
            r@ == value,
    {
        match value {
            Some(v) => SOption::SSome(v),
            None => SOption::SNone,
        }
    }

    /// Moves the carried value back out as a native option.
    pub fn into_option(self) -> (r: Option<T>)
        ensures
            r == self@,
    {
        match self {
            SOption::SSome(v) => Some(v),
            SOption::SNone => None,
        }
    }
}

impl<T> FfiSafeEquivalent for SOption<T> {
    type Normal = Option<T>;

    fn from_normal(normal: Option<T>) -> (r: Self)
        ensures
            r@ == normal,
    {
        SOption::from_option(normal)
    }

    fn into_normal(self) -> (r: Option<T>)
        ensures
            r == self@,
    {
        self.into_option()
    }
}

/// Moving a native option in and back out returns exactly the same value.
pub proof fn lemma_soption_round_trip<T>(x: Option<T>, s: SOption<T>, y: Option<T>)
    requires
        s@ == x,
        y == s@,
    ensures
        y == x,
{
}

} // verus!
