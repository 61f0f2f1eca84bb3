//! Transports: declarative tables binding a source type system to the
//! destination type system, one conversion policy per tag pair.

use vstd::prelude::*;

pub mod oracle_arrowstream;
pub mod postgres_arrow;

verus! {

/// How a value of a source tag becomes a value of its paired destination
/// tag.
#[derive(Clone, Copy, Debug, PartialEq, Eq, Structural)]
pub enum ConversionPolicy {
    /// The native representations are identical; the value passes through
    /// unchanged. Never fails.
    Identity,
    /// A total, infallible, lossless re-representation. Never fails.
    AutoCast,
    /// An explicit conversion that may discard precision or reject
    /// out-of-range input; rejection surfaces as a typed conversion error
    /// carrying the offending value, never an abort.
    FallibleOrLossy,
    /// An explicit conversion of a borrowed or view value into an owned
    /// value of possibly different representation. Always succeeds.
    OwningCopy,
}

} // verus!
