//! Settings of the streaming sinks.

use vstd::prelude::*;

verus! {

/// The initial capacity of the hash tables of grouping and joining sinks: growing them
/// costs less than allocating too much up front, so they start reasonably small.
pub const HASHMAP_INIT_SIZE: usize = 64;

} // verus!
