//! The boundary-stable allocator handle.
//!
//! At a real dynamic-loading boundary this handle carries a table of
//! allocation entry points, so memory allocated in one compiled module can
//! be released in another. Within one verified module all allocations go
//! through the host allocator, so the handle carries no state; it marks
//! which containers own their backing allocation.

use vstd::prelude::*;

verus! {

/// FFI-safe stand-in for the global allocator.
#[derive(Debug, PartialEq, Clone, Copy)]
pub struct SGlobal {}

impl SGlobal {
    pub fn new() -> SGlobal {
        SGlobal {  }
    }
}

impl Default for SGlobal {
    fn default() -> SGlobal {
        SGlobal {  }
    }
}

} // verus!
