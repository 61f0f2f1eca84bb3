//! Engine-wide configuration constants.

use vstd::prelude::*;

verus! {

/// Default number of rows a partition accumulates before it flushes one
/// batch to the shared store.
pub const RECORD_BATCH_SIZE: usize = 64000;

} // verus!
