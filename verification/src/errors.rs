//! Construction errors.
//!
//! Every error here is fatal to the construction that raised it and is
//! surfaced to the caller; nothing is partially applied. Forgetting to sync
//! an updated uniform value is deliberately not an error: it renders the
//! previous frame's state, which is stale but well defined.

use vstd::prelude::*;
use crate::geometries::StreamKind;

verus! {

/// Why a component could not be constructed.
#[derive(Clone, Copy, Debug, PartialEq, Eq, Structural)]
pub enum WvtError {
    /// Geometry was built without any position elements; a pipeline cannot
    /// draw zero vertices.
    MissingPositions,
    /// A pipeline's vertex layout references an attribute stream that its
    /// geometry does not carry.
    MissingStream { stream: StreamKind },
    /// A binding layout declared the same slot index twice.
    DuplicateBindingSlot { slot: u32 },
    /// A binding set supplied a different number of resources than its
    /// layout declares.
    BindingCountMismatch,
    /// The resource supplied for this slot is of a different kind than the
    /// slot declares.
    BindingKindMismatch { slot: u32 },
}

} // verus!
