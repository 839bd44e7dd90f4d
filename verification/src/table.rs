//! The synthesized table: one value grid per column kind, the enabled
//! selectors, and the constraints collected during synthesis.
//!
//! Copy constraints are an explicit list of (cell, cell) equality pairs,
//! never shared references: the verifier checks them after layout, the way a
//! real backend would enforce them cryptographically.  An instance binding
//! ties an internal cell to one row of the public-input vector.

use vstd::prelude::*;

use crate::columns::Cell;
use crate::columns::ColumnKind;
use crate::errors::SynthesisError;
use crate::value::Value;

verus! {

/// An enforced equality between two cells' values.
#[derive(Clone, Copy, PartialEq, Eq, Structural, Debug)]
pub struct CopyConstraint {
    pub left: Cell,
    pub right: Cell,
}

/// An enforced equality between an internal cell and one row of one
/// instance column of the public-input vector.
#[derive(Clone, Copy, PartialEq, Eq, Structural, Debug)]
pub struct InstanceBinding {
    pub cell: Cell,
    pub column: usize,
    pub row: usize,
}

/// The full table for one synthesis: `n` rows per column, column-major.
#[derive(Debug)]
pub struct Assignment {
    /// Table height.
    pub n: usize,
    /// Advice (witness) columns.
    pub advice: Vec<Vec<Value>>,
    /// Fixed (constant) columns.
    pub fixed: Vec<Vec<Value>>,
    /// Selector columns.
    pub selectors: Vec<Vec<bool>>,
    /// Copy constraints collected during synthesis.
    pub copies: Vec<CopyConstraint>,
    /// Instance bindings collected during synthesis.
    pub bindings: Vec<InstanceBinding>,
}

impl Assignment {
    pub open spec fn advice_at(self, c: int, r: int) -> Value {
        self.advice@[c]@[r]
    }

    pub open spec fn fixed_at(self, c: int, r: int) -> Value {
        self.fixed@[c]@[r]
    }

    pub open spec fn sel_at(self, s: int, r: int) -> bool {
        self.selectors@[s]@[r]
    }

    /// A cell reference the table can resolve.  Instance columns hold no
    /// synthesized values — they are bound by `InstanceBinding` instead —
    /// so a copy constraint never references one.
    pub open spec fn cell_ok(self, c: Cell) -> bool {
        match c.column.kind {
            ColumnKind::Advice => c.column.index < self.advice@.len() && c.row < self.n,
            ColumnKind::Fixed => c.column.index < self.fixed@.len() && c.row < self.n,
            ColumnKind::Instance => false,
        }
    }

    /// The value a cell reference resolves to.
    pub open spec fn cell_value(self, c: Cell) -> Value {
        match c.column.kind {
            ColumnKind::Advice => self.advice_at(c.column.index as int, c.row as int),
            ColumnKind::Fixed => self.fixed_at(c.column.index as int, c.row as int),
            ColumnKind::Instance => Value::Unknown,
        }
    }

    /// Shape and content invariants: every column has `n` rows, every held
    /// value is reduced, and every collected constraint references cells
    /// inside the table.
    pub open spec fn wf(self) -> bool {
        &&& self.n > 0
        &&& forall|c: int|
            0 <= c < self.advice@.len() ==> (#[trigger] self.advice@[c])@.len() == self.n
        &&& forall|c: int| 0 <= c < self.fixed@.len() ==> (#[trigger] self.fixed@[c])@.len() == self.n
        &&& forall|s: int|
            0 <= s < self.selectors@.len() ==> (#[trigger] self.selectors@[s])@.len() == self.n
        &&& forall|c: int, r: int|
            0 <= c < self.advice@.len() && 0 <= r < self.n ==> (#[trigger] self.advice_at(c, r)).wf()
        &&& forall|c: int, r: int|
            0 <= c < self.fixed@.len() && 0 <= r < self.n ==> (#[trigger] self.fixed_at(c, r)).wf()
        &&& forall|i: int|
            0 <= i < self.copies@.len() ==> self.cell_ok((#[trigger] self.copies@[i]).left)
                && self.cell_ok(self.copies@[i].right)
        &&& forall|i: int|
            0 <= i < self.bindings@.len() ==> self.cell_ok((#[trigger] self.bindings@[i]).cell)
    }

    /// An empty table: `n` rows, no value assigned, no selector enabled, no
    /// constraint collected.
    pub fn new(n: usize, num_advice: usize, num_fixed: usize, num_selectors: usize) -> (r:
        Assignment)
        requires
            n > 0,
        ensures
            r.wf(),
            r.n == n,
            r.advice@.len() == num_advice,
            r.fixed@.len() == num_fixed,
            r.selectors@.len() == num_selectors,
            forall|c: int, row: int|
                0 <= c < num_advice && 0 <= row < n ==> r.advice_at(c, row) == Value::Unknown,
            forall|c: int, row: int|
                0 <= c < num_fixed && 0 <= row < n ==> r.fixed_at(c, row) == Value::Unknown,
            forall|s: int, row: int|
                0 <= s < num_selectors && 0 <= row < n ==> !r.sel_at(s, row),
            r.copies@ == Seq::<CopyConstraint>::empty(),
            r.bindings@ == Seq::<InstanceBinding>::empty(),
    {
        let mut advice: Vec<Vec<Value>> = Vec::new();
        let mut i: usize = 0;
        while i < num_advice
            invariant
                i <= num_advice,
                advice@.len() == i,
                forall|c: int|
                    0 <= c < i ==> (#[trigger] advice@[c])@ == Seq::new(
                        n as nat,
                        |j: int| Value::Unknown,
                    ),
            decreases num_advice - i,
        {
            advice.push(unknown_column(n));
            i = i + 1;
        }
        let mut fixed: Vec<Vec<Value>> = Vec::new();
        let mut i: usize = 0;
        while i < num_fixed
            invariant
                i <= num_fixed,
                fixed@.len() == i,
                forall|c: int|
                    0 <= c < i ==> (#[trigger] fixed@[c])@ == Seq::new(
                        n as nat,
                        |j: int| Value::Unknown,
                    ),
            decreases num_fixed - i,
        {
            fixed.push(unknown_column(n));
            i = i + 1;
        }
        let mut selectors: Vec<Vec<bool>> = Vec::new();
        let mut i: usize = 0;
        while i < num_selectors
            invariant
                i <= num_selectors,
                selectors@.len() == i,
                forall|s: int|
                    0 <= s < i ==> (#[trigger] selectors@[s])@ == Seq::new(n as nat, |j: int| false),
            decreases num_selectors - i,
        {
            selectors.push(disabled_column(n));
            i = i + 1;
        }
        Assignment { n, advice, fixed, selectors, copies: Vec::new(), bindings: Vec::new() }
    }

    /// Writes one advice cell, leaving the rest of the table as it was.
    pub fn set_advice(&mut self, c: usize, row: usize, v: Value)
        requires
            old(self).wf(),
            c < old(self).advice@.len(),
            row < old(self).n,
            v.wf(),
        ensures
            final(self).wf(),
            final(self).advice_at(c as int, row as int) == v,
            forall|c2: int, r2: int|
                0 <= c2 < final(self).advice@.len() && 0 <= r2 < final(self).n && !(c2 == c && r2 == row)
                    ==> final(self).advice_at(c2, r2) == old(self).advice_at(c2, r2),
            final(self).n == old(self).n,
            final(self).advice@.len() == old(self).advice@.len(),
            final(self).fixed == old(self).fixed,
            final(self).selectors == old(self).selectors,
            final(self).copies == old(self).copies,
            final(self).bindings == old(self).bindings,
    {
        self.advice[c][row] = v;
        proof {
            assert forall|c2: int|
                0 <= c2 < self.advice@.len() implies (#[trigger] self.advice@[c2])@.len()
                == self.n by {
                if c2 != c as int {
                    assert(self.advice@[c2] == old(self).advice@[c2]);
                }
            }
            assert forall|c2: int, r2: int|
                0 <= c2 < self.advice@.len() && 0 <= r2 < self.n implies (#[trigger] self.advice_at(
                c2,
                r2,
            )).wf() by {
                if !(c2 == c as int && r2 == row as int) {
                    assert(self.advice_at(c2, r2) == old(self).advice_at(c2, r2));
                }
            }
            assert forall|c2: int, r2: int|
                0 <= c2 < self.fixed@.len() && 0 <= r2 < self.n implies (#[trigger] self.fixed_at(
                c2,
                r2,
            )).wf() by {
                assert(self.fixed@[c2] == old(self).fixed@[c2]);
                assert(old(self).fixed_at(c2, r2).wf());
            }
            assert forall|i: int|
                0 <= i < self.copies@.len() implies self.cell_ok(
                (#[trigger] self.copies@[i]).left,
            ) && self.cell_ok(self.copies@[i].right) by {
                assert(old(self).cell_ok(old(self).copies@[i].left));
                assert(old(self).cell_ok(old(self).copies@[i].right));
            }
            assert forall|i: int|
                0 <= i < self.bindings@.len() implies self.cell_ok(
                (#[trigger] self.bindings@[i]).cell,
            ) by {
                assert(old(self).cell_ok(old(self).bindings@[i].cell));
            }
        }
    }

    /// Writes one fixed cell, leaving the rest of the table as it was.
    pub fn set_fixed(&mut self, c: usize, row: usize, v: Value)
        requires
            old(self).wf(),
            c < old(self).fixed@.len(),
            row < old(self).n,
            v.wf(),
        ensures
            final(self).wf(),
            final(self).fixed_at(c as int, row as int) == v,
            forall|c2: int, r2: int|
                0 <= c2 < final(self).fixed@.len() && 0 <= r2 < final(self).n && !(c2 == c && r2 == row)
                    ==> final(self).fixed_at(c2, r2) == old(self).fixed_at(c2, r2),
            final(self).n == old(self).n,
            final(self).fixed@.len() == old(self).fixed@.len(),
            final(self).advice == old(self).advice,
            final(self).selectors == old(self).selectors,
            final(self).copies == old(self).copies,
            final(self).bindings == old(self).bindings,
    {
        self.fixed[c][row] = v;
        proof {
            assert forall|c2: int|
                0 <= c2 < self.fixed@.len() implies (#[trigger] self.fixed@[c2])@.len()
                == self.n by {
                if c2 != c as int {
                    assert(self.fixed@[c2] == old(self).fixed@[c2]);
                }
            }
            assert forall|c2: int, r2: int|
                0 <= c2 < self.fixed@.len() && 0 <= r2 < self.n implies (#[trigger] self.fixed_at(
                c2,
                r2,
            )).wf() by {
                if !(c2 == c as int && r2 == row as int) {
                    assert(self.fixed_at(c2, r2) == old(self).fixed_at(c2, r2));
                }
            }
            assert forall|c2: int, r2: int|
                0 <= c2 < self.advice@.len() && 0 <= r2 < self.n implies (#[trigger] self.advice_at(
                c2,
                r2,
            )).wf() by {
                assert(self.advice@[c2] == old(self).advice@[c2]);
                assert(old(self).advice_at(c2, r2).wf());
            }
            assert forall|i: int|
                0 <= i < self.copies@.len() implies self.cell_ok(
                (#[trigger] self.copies@[i]).left,
            ) && self.cell_ok(self.copies@[i].right) by {
                assert(old(self).cell_ok(old(self).copies@[i].left));
                assert(old(self).cell_ok(old(self).copies@[i].right));
            }
            assert forall|i: int|
                0 <= i < self.bindings@.len() implies self.cell_ok(
                (#[trigger] self.bindings@[i]).cell,
            ) by {
                assert(old(self).cell_ok(old(self).bindings@[i].cell));
            }
        }
    }

    /// Reads one advice cell.
    pub fn get_advice(&self, c: usize, row: usize) -> (r: Value)
        requires
            c < self.advice@.len(),
            row < self.advice@[c as int]@.len(),
        ensures
            r == self.advice_at(c as int, row as int),
    {
        self.advice[c][row]
    }

    /// Resolves a cell reference to the value the table holds there.
    pub fn get_cell(&self, cell: Cell) -> (r: Value)
        requires
            self.wf(),
            self.cell_ok(cell),
        ensures
            r == self.cell_value(cell),
    {
        match cell.column.kind {
            ColumnKind::Advice => self.advice[cell.column.index][cell.row],
            ColumnKind::Fixed => self.fixed[cell.column.index][cell.row],
            ColumnKind::Instance => Value::Unknown,
        }
    }

    /// Enables selector `s` at `row`.  The mutual-exclusion rule — at most
    /// one selector per row — is checked here, at assignment time, not left
    /// to caller discipline.
    pub fn enable_selector(&mut self, s: usize, row: usize) -> (r: Result<(), SynthesisError>)
        requires
            old(self).wf(),
            s < old(self).selectors@.len(),
            row < old(self).n,
        ensures
            r is Ok <==> (forall|s2: int|
                0 <= s2 < old(self).selectors@.len() ==> !old(self).sel_at(s2, row as int)),
            r is Err ==> *final(self) == *old(self) && r == Result::<(), SynthesisError>::Err(
                SynthesisError::SelectorClash,
            ),
            r is Ok ==> {
                &&& final(self).wf()
                &&& final(self).sel_at(s as int, row as int)
                &&& forall|s2: int, r2: int|
                    0 <= s2 < final(self).selectors@.len() && 0 <= r2 < final(self).n && !(s2 == s
                        && r2 == row) ==> final(self).sel_at(s2, r2) == old(self).sel_at(s2, r2)
                &&& final(self).n == old(self).n
                &&& final(self).selectors@.len() == old(self).selectors@.len()
                &&& final(self).advice == old(self).advice
                &&& final(self).fixed == old(self).fixed
                &&& final(self).copies == old(self).copies
                &&& final(self).bindings == old(self).bindings
            },
    {
        let mut s2: usize = 0;
        while s2 < self.selectors.len()
            invariant
                s2 <= self.selectors@.len(),
                row < self.n,
                self.wf(),
                forall|j: int| 0 <= j < s2 ==> !self.sel_at(j, row as int),
            decreases self.selectors@.len() - s2,
        {
            if self.selectors[s2][row] {
                proof {
                    assert(old(self).sel_at(s2 as int, row as int));
                }
                return Result::Err(SynthesisError::SelectorClash);
            }
            s2 = s2 + 1;
        }
        self.selectors[s][row] = true;
        proof {
            assert forall|s2: int|
                0 <= s2 < self.selectors@.len() implies (#[trigger] self.selectors@[s2])@.len()
                == self.n by {
                if s2 != s as int {
                    assert(self.selectors@[s2] == old(self).selectors@[s2]);
                }
            }
            assert forall|c2: int, r2: int|
                0 <= c2 < self.advice@.len() && 0 <= r2 < self.n implies (#[trigger] self.advice_at(
                c2,
                r2,
            )).wf() by {
                assert(self.advice@[c2] == old(self).advice@[c2]);
                assert(old(self).advice_at(c2, r2).wf());
            }
            assert forall|c2: int, r2: int|
                0 <= c2 < self.fixed@.len() && 0 <= r2 < self.n implies (#[trigger] self.fixed_at(
                c2,
                r2,
            )).wf() by {
                assert(self.fixed@[c2] == old(self).fixed@[c2]);
                assert(old(self).fixed_at(c2, r2).wf());
            }
            assert forall|i: int|
                0 <= i < self.copies@.len() implies self.cell_ok(
                (#[trigger] self.copies@[i]).left,
            ) && self.cell_ok(self.copies@[i].right) by {
                assert(old(self).cell_ok(old(self).copies@[i].left));
                assert(old(self).cell_ok(old(self).copies@[i].right));
            }
            assert forall|i: int|
                0 <= i < self.bindings@.len() implies self.cell_ok(
                (#[trigger] self.bindings@[i]).cell,
            ) by {
                assert(old(self).cell_ok(old(self).bindings@[i].cell));
            }
        }
        Result::Ok(())
    }

    /// Records an equality constraint between two cells.
    pub fn push_copy(&mut self, left: Cell, right: Cell)
        requires
            old(self).wf(),
            old(self).cell_ok(left),
            old(self).cell_ok(right),
        ensures
            final(self).wf(),
            final(self).copies@ == old(self).copies@.push(CopyConstraint { left, right }),
            final(self).n == old(self).n,
            final(self).advice == old(self).advice,
            final(self).fixed == old(self).fixed,
            final(self).selectors == old(self).selectors,
            final(self).bindings == old(self).bindings,
    {
        self.copies.push(CopyConstraint { left, right });
        proof {
            assert forall|c2: int, r2: int|
                0 <= c2 < self.advice@.len() && 0 <= r2 < self.n implies (#[trigger] self.advice_at(
                c2,
                r2,
            )).wf() by {
                assert(self.advice@[c2] == old(self).advice@[c2]);
                assert(old(self).advice_at(c2, r2).wf());
            }
            assert forall|c2: int, r2: int|
                0 <= c2 < self.fixed@.len() && 0 <= r2 < self.n implies (#[trigger] self.fixed_at(
                c2,
                r2,
            )).wf() by {
                assert(self.fixed@[c2] == old(self).fixed@[c2]);
                assert(old(self).fixed_at(c2, r2).wf());
            }
            assert forall|i: int|
                0 <= i < self.copies@.len() implies self.cell_ok(
                (#[trigger] self.copies@[i]).left,
            ) && self.cell_ok(self.copies@[i].right) by {
                if i < old(self).copies@.len() {
                    assert(old(self).cell_ok(old(self).copies@[i].left));
                    assert(old(self).cell_ok(old(self).copies@[i].right));
                } else {
                    assert(self.copies@[i] == CopyConstraint { left, right });
                }
            }
            assert forall|i: int|
                0 <= i < self.bindings@.len() implies self.cell_ok(
                (#[trigger] self.bindings@[i]).cell,
            ) by {
                assert(old(self).cell_ok(old(self).bindings@[i].cell));
            }
        }
    }

    /// Records an equality constraint between a cell and one row of one
    /// instance column of the public-input vector.
    pub fn push_binding(&mut self, cell: Cell, column: usize, row: usize)
        requires
            old(self).wf(),
            old(self).cell_ok(cell),
        ensures
            final(self).wf(),
            final(self).bindings@ == old(self).bindings@.push(InstanceBinding { cell, column, row }),
            final(self).n == old(self).n,
            final(self).advice == old(self).advice,
            final(self).fixed == old(self).fixed,
            final(self).selectors == old(self).selectors,
            final(self).copies == old(self).copies,
    {
        self.bindings.push(InstanceBinding { cell, column, row });
        proof {
            assert forall|c2: int, r2: int|
                0 <= c2 < self.advice@.len() && 0 <= r2 < self.n implies (#[trigger] self.advice_at(
                c2,
                r2,
            )).wf() by {
                assert(self.advice@[c2] == old(self).advice@[c2]);
                assert(old(self).advice_at(c2, r2).wf());
            }
            assert forall|c2: int, r2: int|
                0 <= c2 < self.fixed@.len() && 0 <= r2 < self.n implies (#[trigger] self.fixed_at(
                c2,
                r2,
            )).wf() by {
                assert(self.fixed@[c2] == old(self).fixed@[c2]);
                assert(old(self).fixed_at(c2, r2).wf());
            }
            assert forall|i: int|
                0 <= i < self.copies@.len() implies self.cell_ok(
                (#[trigger] self.copies@[i]).left,
            ) && self.cell_ok(self.copies@[i].right) by {
                assert(old(self).cell_ok(old(self).copies@[i].left));
                assert(old(self).cell_ok(old(self).copies@[i].right));
            }
            assert forall|i: int|
                0 <= i < self.bindings@.len() implies self.cell_ok(
                (#[trigger] self.bindings@[i]).cell,
            ) by {
                if i < old(self).bindings@.len() {
                    assert(old(self).cell_ok(old(self).bindings@[i].cell));
                } else {
                    assert(self.bindings@[i] == InstanceBinding { cell, column, row });
                }
            }
        }
    }
}

/// A column of `n` unknown values.
fn unknown_column(n: usize) -> (r: Vec<Value>)
    ensures
        r@ == Seq::new(n as nat, |j: int| Value::Unknown),
{
    let mut col: Vec<Value> = Vec::new();
    let mut i: usize = 0;
    while i < n
        invariant
            i <= n,
            col@ == Seq::new(i as nat, |j: int| Value::Unknown),
        decreases n - i,
    {
        col.push(Value::Unknown);
        i = i + 1;
    }
    proof {
        assert(col@ =~= Seq::new(n as nat, |j: int| Value::Unknown));
    }
    col
}

/// A column of `n` disabled selector bits.
fn disabled_column(n: usize) -> (r: Vec<bool>)
    ensures
        r@ == Seq::new(n as nat, |j: int| false),
{
    let mut col: Vec<bool> = Vec::new();
    let mut i: usize = 0;
    while i < n
        invariant
            i <= n,
            col@ == Seq::new(i as nat, |j: int| false),
        decreases n - i,
    {
        col.push(false);
        i = i + 1;
    }
    proof {
        assert(col@ =~= Seq::new(n as nat, |j: int| false));
    }
    col
}

} // verus!
