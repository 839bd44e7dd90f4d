//! Columns, selectors and cell references.
//!
//! A column is an identifier plus a kind, immutable once declared by the
//! configurator.  A selector is a boolean-valued column of its own that
//! toggles one gate per row.  A cell names one (column, row) position of the
//! synthesized table.

use vstd::prelude::*;

verus! {

/// What a column holds: prover witness values, public inputs, or
/// circuit-baked constants.
#[derive(Clone, Copy, PartialEq, Eq, Structural, Debug)]
pub enum ColumnKind {
    Advice,
    Instance,
    Fixed,
}

/// One declared column: its kind and its index among columns of that kind.
#[derive(Clone, Copy, PartialEq, Eq, Structural, Debug)]
pub struct Column {
    pub kind: ColumnKind,
    pub index: usize,
}

/// A boolean column toggling one gate per row, named by its index.
#[derive(Clone, Copy, PartialEq, Eq, Structural, Debug)]
pub struct Selector {
    pub index: usize,
}

/// One (column, row) position of the table.
#[derive(Clone, Copy, PartialEq, Eq, Structural, Debug)]
pub struct Cell {
    pub column: Column,
    pub row: usize,
}

} // verus!
