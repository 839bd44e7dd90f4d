//! The circuit: one instance of `y = x^3 + x + c`.
//!
//! Pure orchestration: load `x` and the constant, square, cube, add `x`,
//! add the constant, and expose the result at instance row 0.  Correctness
//! is delegated entirely to the chip and the configurator; `circuit_layout`
//! below pins down, cell by cell, the table one synthesis run produces.

use vstd::prelude::*;

use crate::chip::chip_fits;
use crate::chip::FieldChip;
use crate::columns::Cell;
use crate::columns::Column;
use crate::columns::ColumnKind;
use crate::columns::Selector;
use crate::config::add_gate_poly;
use crate::config::mul_gate_poly;
use crate::config::ConstraintSystem;
use crate::config::FieldConfig;
use crate::errors::SynthesisError;
use crate::field::Fp;
use crate::layout::Layouter;
use crate::table::Assignment;
use crate::table::CopyConstraint;
use crate::table::InstanceBinding;
use crate::value::v_add;
use crate::value::v_mul;
use crate::value::Value;

verus! {

/// The configuration a fresh configurator hands this circuit.
pub open spec fn canonical_config() -> FieldConfig {
    FieldConfig {
        advice0: Column { kind: ColumnKind::Advice, index: 0 },
        advice1: Column { kind: ColumnKind::Advice, index: 1 },
        instance: Column { kind: ColumnKind::Instance, index: 0 },
        constant: Column { kind: ColumnKind::Fixed, index: 0 },
        s_mul: Selector { index: 0 },
        s_add: Selector { index: 1 },
    }
}

/// The two gates this circuit registers: multiplication on selector 0,
/// addition on selector 1, both over advice columns 0 and 1.
pub open spec fn canonical_gates(cs: ConstraintSystem) -> bool {
    &&& cs.gates@.len() == 2
    &&& cs.gates@[0].selector == (Selector { index: 0 })
    &&& cs.gates@[0].poly == mul_gate_poly(0, 1)
    &&& cs.gates@[1].selector == (Selector { index: 1 })
    &&& cs.gates@[1].poly == add_gate_poly(0, 1)
}

/// The columns this circuit enables equality on, in declaration order.
pub open spec fn canonical_equality() -> Seq<Column> {
    seq![
        Column { kind: ColumnKind::Fixed, index: 0 },
        Column { kind: ColumnKind::Instance, index: 0 },
        Column { kind: ColumnKind::Advice, index: 0 },
        Column { kind: ColumnKind::Advice, index: 1 },
    ]
}

pub open spec fn advice_cell(col: usize, row: usize) -> Cell {
    Cell { column: Column { kind: ColumnKind::Advice, index: col }, row }
}

pub open spec fn fixed_cell(col: usize, row: usize) -> Cell {
    Cell { column: Column { kind: ColumnKind::Fixed, index: col }, row }
}

/// The nine copy constraints one synthesis collects, in order: the
/// constant anchor, then two per `mul`/`add` region.
pub open spec fn layout_copies() -> Seq<CopyConstraint> {
    seq![
        CopyConstraint { left: fixed_cell(0, 1), right: advice_cell(0, 1) },
        CopyConstraint { left: advice_cell(0, 0), right: advice_cell(0, 2) },
        CopyConstraint { left: advice_cell(0, 0), right: advice_cell(1, 2) },
        CopyConstraint { left: advice_cell(0, 3), right: advice_cell(0, 4) },
        CopyConstraint { left: advice_cell(0, 0), right: advice_cell(1, 4) },
        CopyConstraint { left: advice_cell(0, 5), right: advice_cell(0, 6) },
        CopyConstraint { left: advice_cell(0, 0), right: advice_cell(1, 6) },
        CopyConstraint { left: advice_cell(0, 7), right: advice_cell(0, 8) },
        CopyConstraint { left: advice_cell(0, 1), right: advice_cell(1, 8) },
    ]
}

/// The table a successful synthesis of this circuit produces, cell by
/// cell: ten rows of witness, the selector pattern, the nine copies and
/// the one instance binding.
pub open spec fn circuit_layout(a: Assignment, x: Value, c: Fp) -> bool {
    let x2 = v_mul(x, x);
    let x3 = v_mul(x2, x);
    let s = v_add(x3, x);
    let y = v_add(s, Value::Known(c));
    &&& a.wf()
    &&& a.n >= 10
    &&& a.advice@.len() == 2
    &&& a.fixed@.len() == 1
    &&& a.selectors@.len() == 2
    &&& a.advice_at(0, 0) == x
    &&& a.fixed_at(0, 1) == Value::Known(c)
    &&& a.advice_at(0, 1) == Value::Known(c)
    &&& a.advice_at(0, 2) == x
    &&& a.advice_at(1, 2) == x
    &&& a.advice_at(0, 3) == x2
    &&& a.advice_at(0, 4) == x2
    &&& a.advice_at(1, 4) == x
    &&& a.advice_at(0, 5) == x3
    &&& a.advice_at(0, 6) == x3
    &&& a.advice_at(1, 6) == x
    &&& a.advice_at(0, 7) == s
    &&& a.advice_at(0, 8) == s
    &&& a.advice_at(1, 8) == Value::Known(c)
    &&& a.advice_at(0, 9) == y
    &&& forall|r: int| 0 <= r < a.n ==> (a.sel_at(0, r) <==> (r == 2 || r == 4))
    &&& forall|r: int| 0 <= r < a.n ==> (a.sel_at(1, r) <==> (r == 6 || r == 8))
    &&& a.copies@ == layout_copies()
    &&& a.bindings@ == seq![InstanceBinding { cell: advice_cell(0, 9), column: 0, row: 0 }]
}

/// One instance of the computation: a private `x` (possibly unknown) and
/// the circuit-baked constant.
#[derive(Clone, Copy, PartialEq, Eq, Structural, Debug)]
pub struct MyCircuit {
    pub constant: Fp,
    pub x: Value,
}

impl Default for MyCircuit {
    /// The value-free instance: constant zero, witness unknown.
    fn default() -> (r: MyCircuit)
        ensures
            r.constant == (Fp { repr: 0 }),
            r.x == Value::Unknown,
    {
        MyCircuit { constant: Fp { repr: 0 }, x: Value::Unknown }
    }
}

impl MyCircuit {
    pub open spec fn wf(self) -> bool {
        &&& self.constant.wf()
        &&& self.x.wf()
    }

    pub fn new(constant: Fp, x: Value) -> (r: MyCircuit)
        ensures
            r.constant == constant,
            r.x == x,
    {
        MyCircuit { constant, x }
    }

    /// The same circuit with every cell value forced to unknown: the
    /// value-free structural pass an external backend uses to fix the
    /// table's shape before the real witness is known.
    pub fn without_witnesses(&self) -> (r: MyCircuit)
        ensures
            r.x == Value::Unknown,
            r.constant == (Fp { repr: 0 }),
            r.wf(),
    {
        MyCircuit::default()
    }

    /// Declares the circuit's columns on a fresh configurator and wires
    /// the chip over them.
    pub fn configure(meta: &mut ConstraintSystem) -> (r: FieldConfig)
        requires
            !old(meta).frozen,
            old(meta).num_advice == 0,
            old(meta).num_instance == 0,
            old(meta).num_fixed == 0,
            old(meta).num_selectors == 0,
            old(meta).equality@.len() == 0,
            old(meta).gates@.len() == 0,
        ensures
            r == canonical_config(),
            final(meta).num_advice == 2,
            final(meta).num_instance == 1,
            final(meta).num_fixed == 1,
            final(meta).num_selectors == 2,
            final(meta).equality@ == canonical_equality(),
            canonical_gates(*final(meta)),
            final(meta).gates_wf(),
            !final(meta).frozen,
    {
        let advice0 = meta.advice_column();
        let advice1 = meta.advice_column();
        let instance = meta.instance_column();
        let constant = meta.fixed_column();
        let config = FieldChip::configure(meta, advice0, advice1, instance, constant);
        proof {
            assert(meta.equality@ =~= canonical_equality());
        }
        config
    }

    /// Synthesizes one instance: succeeds exactly when the table has at
    /// least the ten rows this circuit lays out, and then leaves behind
    /// precisely the table `circuit_layout` describes.
    pub fn synthesize(&self, config: FieldConfig, lay: &mut Layouter) -> (r: Result<
        (),
        SynthesisError,
    >)
        requires
            old(lay).wf(),
            old(lay).cursor == 0,
            old(lay).table.copies@.len() == 0,
            old(lay).table.bindings@.len() == 0,
            old(lay).table.advice@.len() == 2,
            old(lay).table.fixed@.len() == 1,
            old(lay).table.selectors@.len() == 2,
            old(lay).equality@ == canonical_equality(),
            config == canonical_config(),
            self.wf(),
        ensures
            r is Ok <==> old(lay).table.n >= 10,
            r is Err ==> r == Result::<(), SynthesisError>::Err(SynthesisError::RowOverflow),
            final(lay).wf(),
            final(lay).table.n == old(lay).table.n,
            r is Ok ==> circuit_layout(final(lay).table, self.x, self.constant),
    {
        let chip = FieldChip::new(config);
        proof {
            assert(lay.equality@.contains(config.advice0)) by {
                assert(lay.equality@[2] == config.advice0);
            }
            assert(lay.equality@.contains(config.advice1)) by {
                assert(lay.equality@[3] == config.advice1);
            }
            assert(lay.equality@.contains(config.instance)) by {
                assert(lay.equality@[1] == config.instance);
            }
            assert(lay.equality@.contains(config.constant)) by {
                assert(lay.equality@[0] == config.constant);
            }
        }
        let x = match chip.load_private(lay, self.x) {
            Result::Ok(num) => num,
            Result::Err(e) => {
                return Result::Err(e);
            },
        };
        let ghost lay1 = *lay;
        let constant = match chip.load_constant(lay, self.constant) {
            Result::Ok(num) => num,
            Result::Err(e) => {
                return Result::Err(e);
            },
        };
        let ghost lay2 = *lay;
        proof {
            assert(x.wf(*lay)) by {
                assert(lay.table.advice_at(0, 0) == lay1.table.advice_at(0, 0));
            }
        }
        let x2 = match chip.mul(lay, &x, &x) {
            Result::Ok(num) => num,
            Result::Err(e) => {
                return Result::Err(e);
            },
        };
        let ghost lay3 = *lay;
        proof {
            assert(x.wf(*lay)) by {
                assert(lay.table.advice_at(0, 0) == lay2.table.advice_at(0, 0));
            }
        }
        let x3 = match chip.mul(lay, &x2, &x) {
            Result::Ok(num) => num,
            Result::Err(e) => {
                return Result::Err(e);
            },
        };
        let ghost lay4 = *lay;
        proof {
            assert(x.wf(*lay)) by {
                assert(lay.table.advice_at(0, 0) == lay3.table.advice_at(0, 0));
            }
        }
        let x3_plus_x = match chip.add(lay, &x3, &x) {
            Result::Ok(num) => num,
            Result::Err(e) => {
                return Result::Err(e);
            },
        };
        let ghost lay5 = *lay;
        proof {
            assert(constant.wf(*lay)) by {
                assert(lay.table.advice_at(0, 1) == lay4.table.advice_at(0, 1));
                assert(lay4.table.advice_at(0, 1) == lay3.table.advice_at(0, 1));
                assert(lay3.table.advice_at(0, 1) == lay2.table.advice_at(0, 1));
            }
        }
        let y = match chip.add(lay, &x3_plus_x, &constant) {
            Result::Ok(num) => num,
            Result::Err(e) => {
                return Result::Err(e);
            },
        };
        let ghost lay6 = *lay;
        let exposed = match chip.expose_public(lay, &y, 0) {
            Result::Ok(u) => u,
            Result::Err(e) => {
                return Result::Err(e);
            },
        };
        proof {
            let x2v = v_mul(self.x, self.x);
            let x3v = v_mul(x2v, self.x);
            let sv = v_add(x3v, self.x);
            let yv = v_add(sv, Value::Known(self.constant));
            let t = lay.table;
            assert(lay.table.advice == lay6.table.advice);
            assert(t.advice_at(0, 0) == lay6.table.advice_at(0, 0));
            assert(lay6.table.advice_at(0, 0) == lay5.table.advice_at(0, 0));
            assert(lay5.table.advice_at(0, 0) == lay4.table.advice_at(0, 0));
            assert(lay4.table.advice_at(0, 0) == lay3.table.advice_at(0, 0));
            assert(lay3.table.advice_at(0, 0) == lay2.table.advice_at(0, 0));
            assert(lay2.table.advice_at(0, 0) == lay1.table.advice_at(0, 0));
            assert(t.advice_at(0, 0) == self.x);
            assert(t.fixed_at(0, 1) == lay6.table.fixed_at(0, 1));
            assert(lay6.table.fixed_at(0, 1) == lay5.table.fixed_at(0, 1));
            assert(lay5.table.fixed_at(0, 1) == lay4.table.fixed_at(0, 1));
            assert(lay4.table.fixed_at(0, 1) == lay3.table.fixed_at(0, 1));
            assert(lay3.table.fixed_at(0, 1) == lay2.table.fixed_at(0, 1));
            assert(t.fixed_at(0, 1) == Value::Known(self.constant));
            assert(t.advice_at(0, 1) == lay6.table.advice_at(0, 1));
            assert(lay6.table.advice_at(0, 1) == lay5.table.advice_at(0, 1));
            assert(lay5.table.advice_at(0, 1) == lay4.table.advice_at(0, 1));
            assert(lay4.table.advice_at(0, 1) == lay3.table.advice_at(0, 1));
            assert(lay3.table.advice_at(0, 1) == lay2.table.advice_at(0, 1));
            assert(t.advice_at(0, 1) == Value::Known(self.constant));
            assert(t.advice_at(0, 2) == lay6.table.advice_at(0, 2));
            assert(lay6.table.advice_at(0, 2) == lay5.table.advice_at(0, 2));
            assert(lay5.table.advice_at(0, 2) == lay4.table.advice_at(0, 2));
            assert(lay4.table.advice_at(0, 2) == lay3.table.advice_at(0, 2));
            assert(t.advice_at(0, 2) == self.x);
            assert(t.advice_at(1, 2) == lay6.table.advice_at(1, 2));
            assert(lay6.table.advice_at(1, 2) == lay5.table.advice_at(1, 2));
            assert(lay5.table.advice_at(1, 2) == lay4.table.advice_at(1, 2));
            assert(lay4.table.advice_at(1, 2) == lay3.table.advice_at(1, 2));
            assert(t.advice_at(1, 2) == self.x);
            assert(t.advice_at(0, 3) == lay6.table.advice_at(0, 3));
            assert(lay6.table.advice_at(0, 3) == lay5.table.advice_at(0, 3));
            assert(lay5.table.advice_at(0, 3) == lay4.table.advice_at(0, 3));
            assert(lay4.table.advice_at(0, 3) == lay3.table.advice_at(0, 3));
            assert(t.advice_at(0, 3) == x2v);
            assert(t.advice_at(0, 4) == lay6.table.advice_at(0, 4));
            assert(lay6.table.advice_at(0, 4) == lay5.table.advice_at(0, 4));
            assert(lay5.table.advice_at(0, 4) == lay4.table.advice_at(0, 4));
            assert(x2.value == x2v);
            assert(t.advice_at(0, 4) == x2v);
            assert(t.advice_at(1, 4) == lay6.table.advice_at(1, 4));
            assert(lay6.table.advice_at(1, 4) == lay5.table.advice_at(1, 4));
            assert(lay5.table.advice_at(1, 4) == lay4.table.advice_at(1, 4));
            assert(t.advice_at(1, 4) == self.x);
            assert(t.advice_at(0, 5) == lay6.table.advice_at(0, 5));
            assert(lay6.table.advice_at(0, 5) == lay5.table.advice_at(0, 5));
            assert(lay5.table.advice_at(0, 5) == lay4.table.advice_at(0, 5));
            assert(t.advice_at(0, 5) == x3v);
            assert(t.advice_at(0, 6) == lay6.table.advice_at(0, 6));
            assert(lay6.table.advice_at(0, 6) == lay5.table.advice_at(0, 6));
            assert(x3.value == x3v);
            assert(t.advice_at(0, 6) == x3v);
            assert(t.advice_at(1, 6) == lay6.table.advice_at(1, 6));
            assert(lay6.table.advice_at(1, 6) == lay5.table.advice_at(1, 6));
            assert(t.advice_at(1, 6) == self.x);
            assert(t.advice_at(0, 7) == lay6.table.advice_at(0, 7));
            assert(lay6.table.advice_at(0, 7) == lay5.table.advice_at(0, 7));
            assert(t.advice_at(0, 7) == sv);
            assert(t.advice_at(0, 8) == lay6.table.advice_at(0, 8));
            assert(x3_plus_x.value == sv);
            assert(t.advice_at(0, 8) == sv);
            assert(t.advice_at(1, 8) == lay6.table.advice_at(1, 8));
            assert(constant.value == Value::Known(self.constant));
            assert(t.advice_at(1, 8) == Value::Known(self.constant));
            assert(t.advice_at(0, 9) == lay6.table.advice_at(0, 9));
            assert(y.value == yv);
            assert(t.advice_at(0, 9) == yv);
            assert forall|rw: int| 0 <= rw < t.n implies (t.sel_at(0, rw) <==> (rw == 2 || rw
                == 4)) by {
                assert(t.sel_at(0, rw) == lay6.table.sel_at(0, rw));
                if rw != 8 {
                    assert(lay6.table.sel_at(0, rw) == lay5.table.sel_at(0, rw));
                    if rw != 6 {
                        assert(lay5.table.sel_at(0, rw) == lay4.table.sel_at(0, rw));
                        if rw != 4 {
                            assert(lay4.table.sel_at(0, rw) == lay3.table.sel_at(0, rw));
                            if rw != 2 {
                                assert(lay3.table.sel_at(0, rw) == lay2.table.sel_at(0, rw));
                                assert(lay2.table.sel_at(0, rw) == lay1.table.sel_at(0, rw));
                                assert(lay1.table.sel_at(0, rw) == old(lay).table.sel_at(0, rw));
                                assert(!old(lay).table.sel_at(0, rw));
                            } else {
                                assert(lay3.table.sel_at(0, 2));
                            }
                        } else {
                            assert(lay4.table.sel_at(0, 4));
                        }
                    } else {
                        assert(lay5.table.sel_at(1, 6));
                        assert(lay5.table.sel_at(0, 6) == lay4.table.sel_at(0, 6));
                        assert(lay4.table.sel_at(0, 6) == lay3.table.sel_at(0, 6));
                        assert(lay3.table.sel_at(0, 6) == lay2.table.sel_at(0, 6));
                        assert(lay2.table.sel_at(0, 6) == lay1.table.sel_at(0, 6));
                        assert(lay1.table.sel_at(0, 6) == old(lay).table.sel_at(0, 6));
                    }
                } else {
                    assert(lay6.table.sel_at(0, 8) == lay5.table.sel_at(0, 8));
                    assert(lay5.table.sel_at(0, 8) == lay4.table.sel_at(0, 8));
                    assert(lay4.table.sel_at(0, 8) == lay3.table.sel_at(0, 8));
                    assert(lay3.table.sel_at(0, 8) == lay2.table.sel_at(0, 8));
                    assert(lay2.table.sel_at(0, 8) == lay1.table.sel_at(0, 8));
                    assert(lay1.table.sel_at(0, 8) == old(lay).table.sel_at(0, 8));
                }
            }
            assert forall|rw: int| 0 <= rw < t.n implies (t.sel_at(1, rw) <==> (rw == 6 || rw
                == 8)) by {
                assert(t.sel_at(1, rw) == lay6.table.sel_at(1, rw));
                if rw == 8 {
                    assert(lay6.table.sel_at(1, 8));
                } else if rw == 6 {
                    assert(lay6.table.sel_at(1, 6) == lay5.table.sel_at(1, 6));
                    assert(lay5.table.sel_at(1, 6));
                } else {
                    assert(lay6.table.sel_at(1, rw) == lay5.table.sel_at(1, rw));
                    assert(lay5.table.sel_at(1, rw) == lay4.table.sel_at(1, rw));
                    assert(lay4.table.sel_at(1, rw) == lay3.table.sel_at(1, rw));
                    assert(lay3.table.sel_at(1, rw) == lay2.table.sel_at(1, rw));
                    assert(lay2.table.sel_at(1, rw) == lay1.table.sel_at(1, rw));
                    assert(lay1.table.sel_at(1, rw) == old(lay).table.sel_at(1, rw));
                    assert(!old(lay).table.sel_at(1, rw));
                }
            }
            assert(t.copies@ =~= layout_copies());
            assert(t.bindings@ =~= seq![
                InstanceBinding { cell: advice_cell(0, 9), column: 0, row: 0 },
            ]);
            assert(circuit_layout(t, self.x, self.constant));
        }
        Result::Ok(exposed)
    }
}

} // verus!
