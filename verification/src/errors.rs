//! The error taxonomy of the engine.
//!
//! Every failure propagates as a typed error to the immediate caller;
//! nothing is retried internally, and no verified function of this crate
//! panics.

use vstd::prelude::*;
use crate::data_order::DataOrder;
use crate::typesystem::NativeKind;

verus! {

/// Errors shared by every component of the engine.
#[derive(Clone, Copy, Debug, PartialEq, Eq, Structural)]
pub enum ConnectorXError {
    /// The requested row/column ordering cannot be honored by the
    /// destination. Fatal to `allocate`; raised before any row is read.
    UnsupportedDataOrder(DataOrder),
    /// A value's native representation disagrees with its column's tag.
    /// Fatal to the one append that presented the value.
    TypeCheckFailed { expected: NativeKind, found: NativeKind },
}

/// Errors of the columnar destination and its partition writers.
#[derive(Clone, Copy, Debug, PartialEq, Eq, Structural)]
pub enum Arrow2DestinationError {
    /// A shared engine error, unchanged.
    ConnectorX(ConnectorXError),
    /// Draining was attempted while a partition still owns a handle on the
    /// shared batch store. Fatal to that drain; the store is untouched and
    /// the drain may be retried once every handle has been returned.
    ResourceStillHeld,
}

} // verus!
