//! Row or column major ordering requested for a transfer.

use vstd::prelude::*;

verus! {

/// The order in which a source hands cells to a destination partition:
/// row by row, or column by column.
#[derive(Clone, Copy, Debug, PartialEq, Eq, Structural)]
pub enum DataOrder {
    RowMajor,
    ColumnMajor,
}

} // verus!
