//! Why a descriptor cannot be flattened.

use vstd::prelude::*;

verus! {

/// A descriptor that the flat form has no room or no encoding for.
#[derive(Clone, Copy, Debug, PartialEq, Eq, Structural)]
pub enum MarshalError {
    /// The descriptor carries `given` records where the flat form holds at most `limit`.
    CapacityExceeded { limit: usize, given: usize },
    /// The entry point name of stage number `stage` holds a zero byte, so it cannot be
    /// written as a C string.
    InteriorNul { stage: usize },
}

} // verus!
