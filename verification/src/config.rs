//! The table and gate configurator.
//!
//! Columns and gates are declared exactly once, before any witness exists,
//! and are immutable afterwards: the configurator is frozen before synthesis
//! begins.  Configuration mistakes — wiring a gate over an undeclared
//! column, or touching a frozen configurator — are programming errors and
//! are excluded by preconditions rather than reported at run time.

use vstd::prelude::*;

use crate::columns::Column;
use crate::columns::ColumnKind;
use crate::columns::Selector;
use crate::expr::wf_expr;
use crate::expr::Expr;

verus! {

/// A named polynomial identity, enforced at every row where its selector
/// is enabled.
#[derive(Debug)]
pub struct Gate {
    pub name: &'static str,
    pub selector: Selector,
    pub poly: Expr,
}

/// The configurator: declared columns, equality-enabled columns, and
/// registered gates.
#[derive(Debug)]
pub struct ConstraintSystem {
    pub num_advice: usize,
    pub num_instance: usize,
    pub num_fixed: usize,
    pub num_selectors: usize,
    /// Columns eligible for copy constraints.
    pub equality: Vec<Column>,
    pub gates: Vec<Gate>,
    /// Set once configuration is over; no declaration may follow.
    pub frozen: bool,
}

impl ConstraintSystem {
    /// A column this configurator has declared.
    pub open spec fn declared(self, col: Column) -> bool {
        match col.kind {
            ColumnKind::Advice => col.index < self.num_advice,
            ColumnKind::Instance => col.index < self.num_instance,
            ColumnKind::Fixed => col.index < self.num_fixed,
        }
    }

    /// Every gate queries declared columns only and uses a declared
    /// selector.
    pub open spec fn gates_wf(self) -> bool {
        forall|g: int|
            0 <= g < self.gates@.len() ==> wf_expr(
                (#[trigger] self.gates@[g]).poly,
                self.num_advice as nat,
            ) && self.gates@[g].selector.index < self.num_selectors
    }

    pub fn new() -> (r: ConstraintSystem)
        ensures
            r.num_advice == 0,
            r.num_instance == 0,
            r.num_fixed == 0,
            r.num_selectors == 0,
            r.equality@ == Seq::<Column>::empty(),
            r.gates@ == Seq::<Gate>::empty(),
            !r.frozen,
            r.gates_wf(),
    {
        ConstraintSystem {
            num_advice: 0,
            num_instance: 0,
            num_fixed: 0,
            num_selectors: 0,
            equality: Vec::new(),
            gates: Vec::new(),
            frozen: false,
        }
    }

    /// Declares a fresh advice column.
    pub fn advice_column(&mut self) -> (r: Column)
        requires
            !old(self).frozen,
            old(self).num_advice < usize::MAX,
        ensures
            r == (Column { kind: ColumnKind::Advice, index: old(self).num_advice }),
            *final(self) == (ConstraintSystem {
                num_advice: (old(self).num_advice + 1) as usize,
                ..*old(self)
            }),
    {
        let index = self.num_advice;
        self.num_advice = self.num_advice + 1;
        Column { kind: ColumnKind::Advice, index }
    }

    /// Declares a fresh instance column.
    pub fn instance_column(&mut self) -> (r: Column)
        requires
            !old(self).frozen,
            old(self).num_instance < usize::MAX,
        ensures
            r == (Column { kind: ColumnKind::Instance, index: old(self).num_instance }),
            *final(self) == (ConstraintSystem {
                num_instance: (old(self).num_instance + 1) as usize,
                ..*old(self)
            }),
    {
        let index = self.num_instance;
        self.num_instance = self.num_instance + 1;
        Column { kind: ColumnKind::Instance, index }
    }

    /// Declares a fresh fixed column.
    pub fn fixed_column(&mut self) -> (r: Column)
        requires
            !old(self).frozen,
            old(self).num_fixed < usize::MAX,
        ensures
            r == (Column { kind: ColumnKind::Fixed, index: old(self).num_fixed }),
            *final(self) == (ConstraintSystem {
                num_fixed: (old(self).num_fixed + 1) as usize,
                ..*old(self)
            }),
    {
        let index = self.num_fixed;
        self.num_fixed = self.num_fixed + 1;
        Column { kind: ColumnKind::Fixed, index }
    }

    /// Declares a fresh selector.
    pub fn selector(&mut self) -> (r: Selector)
        requires
            !old(self).frozen,
            old(self).num_selectors < usize::MAX,
        ensures
            r == (Selector { index: old(self).num_selectors }),
            *final(self) == (ConstraintSystem {
                num_selectors: (old(self).num_selectors + 1) as usize,
                ..*old(self)
            }),
    {
        let index = self.num_selectors;
        self.num_selectors = self.num_selectors + 1;
        Selector { index }
    }

    /// Marks a declared column eligible for copy constraints.
    pub fn enable_equality(&mut self, col: Column)
        requires
            !old(self).frozen,
            old(self).declared(col),
        ensures
            final(self).equality@ == old(self).equality@.push(col),
            *final(self) == (ConstraintSystem { equality: final(self).equality, ..*old(self) }),
    {
        self.equality.push(col);
    }

    /// Marks a declared fixed column as the anchor for constant loading,
    /// which makes it eligible for copy constraints.
    pub fn enable_constant(&mut self, col: Column)
        requires
            !old(self).frozen,
            col.kind == ColumnKind::Fixed,
            old(self).declared(col),
        ensures
            final(self).equality@ == old(self).equality@.push(col),
            *final(self) == (ConstraintSystem { equality: final(self).equality, ..*old(self) }),
    {
        self.equality.push(col);
    }

    /// Registers the identity `selector * poly == 0`, to be checked at
    /// every row.
    pub fn create_gate(&mut self, name: &'static str, selector: Selector, poly: Expr)
        requires
            !old(self).frozen,
            selector.index < old(self).num_selectors,
            wf_expr(poly, old(self).num_advice as nat),
        ensures
            final(self).gates@.len() == old(self).gates@.len() + 1,
            forall|g: int|
                0 <= g < old(self).gates@.len() ==> final(self).gates@[g] == old(self).gates@[g],
            final(self).gates@[old(self).gates@.len() as int].selector == selector,
            final(self).gates@[old(self).gates@.len() as int].poly == poly,
            *final(self) == (ConstraintSystem { gates: final(self).gates, ..*old(self) }),
    {
        self.gates.push(Gate { name, selector, poly });
    }

    /// Ends configuration: no further declaration is accepted.
    pub fn freeze(&mut self)
        ensures
            *final(self) == (ConstraintSystem { frozen: true, ..*old(self) }),
    {
        self.frozen = true;
    }
}

/// Where the configured circuit finds its columns and selectors.
#[derive(Clone, Copy, Debug)]
pub struct FieldConfig {
    pub advice0: Column,
    pub advice1: Column,
    pub instance: Column,
    pub constant: Column,
    pub s_mul: Selector,
    pub s_add: Selector,
}

/// The multiplication identity `a0 * a1 - out == 0`, where `out` is `a0`
/// read at the next row.
pub open spec fn mul_gate_poly(a0: usize, a1: usize) -> Expr {
    Expr::Sub(
        Box::new(
            Expr::Product(
                Box::new(Expr::Advice { column: a0, rotation: 0 }),
                Box::new(Expr::Advice { column: a1, rotation: 0 }),
            ),
        ),
        Box::new(Expr::Advice { column: a0, rotation: 1 }),
    )
}

/// The addition identity `a0 + a1 - out == 0`, with the same `out`
/// convention.
pub open spec fn add_gate_poly(a0: usize, a1: usize) -> Expr {
    Expr::Sub(
        Box::new(
            Expr::Sum(
                Box::new(Expr::Advice { column: a0, rotation: 0 }),
                Box::new(Expr::Advice { column: a1, rotation: 0 }),
            ),
        ),
        Box::new(Expr::Advice { column: a0, rotation: 1 }),
    )
}

/// Builds the multiplication gate polynomial over the two given advice
/// columns.
pub fn build_mul_poly(a0: usize, a1: usize) -> (r: Expr)
    ensures
        r == mul_gate_poly(a0, a1),
{
    Expr::Sub(
        Box::new(
            Expr::Product(
                Box::new(Expr::Advice { column: a0, rotation: 0 }),
                Box::new(Expr::Advice { column: a1, rotation: 0 }),
            ),
        ),
        Box::new(Expr::Advice { column: a0, rotation: 1 }),
    )
}

/// Builds the addition gate polynomial over the two given advice columns.
pub fn build_add_poly(a0: usize, a1: usize) -> (r: Expr)
    ensures
        r == add_gate_poly(a0, a1),
{
    Expr::Sub(
        Box::new(
            Expr::Sum(
                Box::new(Expr::Advice { column: a0, rotation: 0 }),
                Box::new(Expr::Advice { column: a1, rotation: 0 }),
            ),
        ),
        Box::new(Expr::Advice { column: a0, rotation: 1 }),
    )
}

} // verus!
