//! FFI-safe equivalents of [`()`][unit] and of a pair.

use vstd::prelude::*;

use super::FfiSafeEquivalent;

verus! {

/// FFI-safe equivalent of the unit type, with a defined (empty) layout.
#[derive(Debug, PartialEq, Eq, PartialOrd, Ord, Hash, Clone, Copy)]
pub struct SUnit {}

impl SUnit {
    pub fn new() -> SUnit {
        SUnit {  }
    }
}

impl Default for SUnit {
    fn default() -> (r: SUnit)
        ensures
            r == (SUnit {  }),
    {
        SUnit {  }
    }
}

impl FfiSafeEquivalent for SUnit {
    type Normal = ();

    fn from_normal(_normal: ()) -> SUnit {
        SUnit {  }
    }

    fn into_normal(self) {
    }
}

/// FFI-safe equivalent of `(T1, T2)`, with a fixed field order.
#[derive(Debug, PartialEq, Eq, Clone, Copy, PartialOrd, Ord, Hash)]
pub struct STuple2<T1, T2>(pub T1, pub T2);

impl<T1, T2> FfiSafeEquivalent for STuple2<T1, T2> {
    type Normal = (T1, T2);

    fn from_normal(normal: (T1, T2)) -> (r: Self)
        ensures
            r.0 == normal.0,
            r.1 == normal.1,
    {
        STuple2(normal.0, normal.1)
    }

    fn into_normal(self) -> (r: (T1, T2))
        ensures
            r.0 == self.0,
            r.1 == self.1,
    {
        (self.0, self.1)
    }
}

/// Moving a native pair in and back out returns exactly the same pair.
pub proof fn lemma_stuple2_round_trip<T1, T2>(x: (T1, T2), s: STuple2<T1, T2>, y: (T1, T2))
    requires
        s.0 == x.0,
        s.1 == x.1,
        y.0 == s.0,
        y.1 == s.1,
    ensures
        y == x,
{
}

} // verus!
