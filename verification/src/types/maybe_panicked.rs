//! The panic barrier's result type: a call that crossed a boundary either
//! returned a value or aborted.
//!
//! Catching an unwind and re-raising it are done by the program around the
//! library, since they go through the host's panic machinery; this type is
//! the fixed-layout signal that crosses the boundary.

use vstd::prelude::*;

use super::tuple::SUnit;

verus! {

/// The outcome of a callback invoked across a boundary: its value, or the
/// tag that it aborted.
#[derive(Debug, PartialEq)]
pub enum MaybePanicked<T = SUnit> {
    SOk(T),
    Panicked,
}

impl<T> MaybePanicked<T> {
    /// Whether the callback completed.
    pub fn is_ok(&self) -> (r: bool)
        ensures
            r == (self matches MaybePanicked::SOk(_)),
    {
        match self {
            MaybePanicked::SOk(_) => true,
            MaybePanicked::Panicked => false,
        }
    }

    /// The completed callback's value, or the given fallback when the
    /// callback aborted.
    pub fn unwrap_or(self, fallback: T) -> (r: T)
        ensures
            match self {
                MaybePanicked::SOk(v) => r == v,
                MaybePanicked::Panicked => r == fallback,
            },
    {
        match self {
            MaybePanicked::SOk(v) => v,
            MaybePanicked::Panicked => fallback,
        }
    }
}

} // verus!
