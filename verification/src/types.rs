//! The FFI-safe container kit: fixed-shape substitutes for native owning and
//! borrowing types, each with verified conversions to and from its native
//! equivalent.
//!
//! Each conversion is ownership-transferring: `into_normal` consumes the
//! container, so a consumed container cannot be used or released again; that
//! discipline is enforced at compile time by move semantics. No container
//! declares a destructor of its own, so a backing allocation is released
//! exactly once, by the native value that carries it.

use vstd::prelude::*;

pub mod allocator;
pub mod maybe_panicked;
pub mod sbox;
pub mod slice;
pub mod soption;
pub mod sresult;
pub mod svec;
pub mod sstr;
pub mod tuple;

pub use allocator::SGlobal;
pub use maybe_panicked::MaybePanicked;
pub use sbox::SBox;
pub use slice::{SMutSlice, SSlice};
pub use soption::SOption;
pub use sresult::SResult;
pub use svec::SVec;
pub use sstr::{SMutStr, SStr};
pub use tuple::{STuple2, SUnit};

verus! {

/// Conversion between a container and its native equivalent. Both directions
/// move ownership; each implementation's contract says that the value
/// carried across is unchanged.
pub trait FfiSafeEquivalent: Sized {
    type Normal;

    /// Constructs the FFI-safe equivalent of a native value.
    fn from_normal(normal: Self::Normal) -> Self;

    /// Converts an FFI-safe value back to its native equivalent, consuming
    /// it.
    fn into_normal(self) -> Self::Normal;
}

} // verus!
