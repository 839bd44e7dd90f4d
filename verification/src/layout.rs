//! Region layout during synthesis.
//!
//! A region is a named, scoped batch of row assignments.  Opening one
//! commits its starting row into the shared layout cursor exactly once; the
//! region then addresses rows by offset from that start.  The layouter also
//! carries the equality-enabled column list, so every copy constraint can be
//! checked against it at synthesis time.

use vstd::prelude::*;

use crate::columns::Cell;
use crate::columns::Column;
use crate::columns::ColumnKind;
use crate::errors::SynthesisError;
use crate::table::Assignment;
use crate::value::Value;

verus! {

/// One committed region: its name, its starting row and its height.
#[derive(Clone, Copy, Debug)]
pub struct Region {
    pub name: &'static str,
    pub start: usize,
    pub rows: usize,
}

/// The layout engine for one synthesis: the table under construction, the
/// shared row cursor, and the equality-enabled columns.
#[derive(Debug)]
pub struct Layouter {
    pub table: Assignment,
    pub cursor: usize,
    pub equality: Vec<Column>,
}

/// An immutable handle to an assigned cell and its value, produced by an
/// assignment and consumed by later operations through copy constraints.
#[derive(Clone, Copy, PartialEq, Eq, Structural, Debug)]
pub struct Number {
    pub cell: Cell,
    pub value: Value,
}

impl Number {
    /// The handle names an advice cell below the cursor, and carries
    /// exactly the value the table holds there.
    pub open spec fn wf(self, lay: Layouter) -> bool {
        &&& self.cell.column.kind == ColumnKind::Advice
        &&& self.cell.column.index < lay.table.advice@.len()
        &&& self.cell.row < lay.cursor
        &&& lay.table.advice_at(self.cell.column.index as int, self.cell.row as int) == self.value
        &&& self.value.wf()
    }
}

impl Layouter {
    /// The table is well formed, the cursor is within it, and no selector
    /// is enabled on a row the cursor has not passed.
    pub open spec fn wf(self) -> bool {
        &&& self.table.wf()
        &&& self.cursor <= self.table.n
        &&& forall|s: int, r: int|
            0 <= s < self.table.selectors@.len() && self.cursor <= r < self.table.n ==> !(
            #[trigger] self.table.sel_at(s, r))
    }

    /// A fresh layouter over an empty table.
    pub fn new(
        n: usize,
        num_advice: usize,
        num_fixed: usize,
        num_selectors: usize,
        equality: Vec<Column>,
    ) -> (r: Layouter)
        requires
            n > 0,
        ensures
            r.wf(),
            r.cursor == 0,
            r.equality == equality,
            r.table.n == n,
            r.table.advice@.len() == num_advice,
            r.table.fixed@.len() == num_fixed,
            r.table.selectors@.len() == num_selectors,
            forall|c: int, row: int|
                0 <= c < num_advice && 0 <= row < n ==> r.table.advice_at(c, row) == Value::Unknown,
            forall|c: int, row: int|
                0 <= c < num_fixed && 0 <= row < n ==> r.table.fixed_at(c, row) == Value::Unknown,
            r.table.copies@.len() == 0,
            r.table.bindings@.len() == 0,
    {
        Layouter { table: Assignment::new(n, num_advice, num_fixed, num_selectors), cursor: 0, equality }
    }

    /// Whether a column may take part in copy constraints.
    pub fn is_eq_enabled(&self, col: Column) -> (r: bool)
        ensures
            r == self.equality@.contains(col),
    {
        let mut i: usize = 0;
        while i < self.equality.len()
            invariant
                i <= self.equality@.len(),
                forall|j: int| 0 <= j < i ==> self.equality@[j] != col,
            decreases self.equality@.len() - i,
        {
            if self.equality[i] == col {
                return true;
            }
            i = i + 1;
        }
        false
    }

    /// Commits a named region of `rows` rows: records the starting row and
    /// moves the shared cursor past the region, exactly once.
    pub fn open_region(&mut self, name: &'static str, rows: usize) -> (r: Result<
        Region,
        SynthesisError,
    >)
        requires
            old(self).wf(),
        ensures
            r is Ok <==> old(self).cursor + rows <= old(self).table.n,
            r is Err ==> *final(self) == *old(self) && r == Result::<Region, SynthesisError>::Err(
                SynthesisError::RowOverflow,
            ),
            r matches Ok(reg) ==> {
                &&& reg.start == old(self).cursor
                &&& reg.rows == rows
                &&& final(self).cursor == old(self).cursor + rows
                &&& final(self).table == old(self).table
                &&& final(self).equality == old(self).equality
                &&& final(self).wf()
            },
    {
        if rows > self.table.n - self.cursor {
            return Result::Err(SynthesisError::RowOverflow);
        }
        let start = self.cursor;
        self.cursor = self.cursor + rows;
        Result::Ok(Region { name, start, rows })
    }
}

} // verus!
