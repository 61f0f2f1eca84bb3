//! Core engine of a row-to-columnar data transport library.
//!
//! Rows produced by tabular sources are moved into columnar in-memory
//! batches: a closed set of runtime type tags selects a fully typed encode
//! path for every value, a declarative transport table binds a source type
//! system to the destination type system with one conversion policy per tag
//! pair, and independent partition writers accumulate fixed-capacity batches
//! that a shared store hands out exactly once at the end of a transfer.

pub mod constants;
pub mod data_order;
pub mod destinations;
pub mod dispatch;
pub mod errors;
pub mod transports;
pub mod typesystem;
