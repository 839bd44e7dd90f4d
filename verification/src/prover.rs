//! The mock prover: a non-succinct, local verifier.
//!
//! `run` lays the whole circuit out into a `2^k`-row table; `verify` then
//! checks every gate at every row, every copy constraint and every instance
//! binding, and reports either success or the exhaustive list of violated
//! constraints — it never stops at the first.  This validates circuit logic
//! before any real proving backend is involved and produces no transferable
//! proof.

use vstd::prelude::*;

use crate::circuit::canonical_gates;
use crate::circuit::circuit_layout;
use crate::circuit::MyCircuit;
use crate::columns::Cell;
use crate::config::ConstraintSystem;
use crate::errors::SynthesisError;
use crate::expr::eval_expr;
use crate::expr::eval_expr_spec;
use crate::expr::wf_expr;
use crate::field::Fp;
use crate::layout::Layouter;
use crate::table::Assignment;
use crate::value::Value;

verus! {

/// The public-input columns as mathematical sequences.
pub open spec fn instance_views(inst: Seq<Vec<Fp>>) -> Seq<Seq<Fp>> {
    inst.map_values(|col: Vec<Fp>| col@)
}

/// Gate `g` holds at `row`: its selector is off, or its polynomial
/// evaluates to the known zero.
pub open spec fn gate_ok_at(cs: ConstraintSystem, a: Assignment, g: int, row: int) -> bool {
    a.sel_at(cs.gates@[g].selector.index as int, row) ==> eval_expr_spec(cs.gates@[g].poly, a, row)
        == Value::Known(Fp { repr: 0 })
}

pub open spec fn gates_ok(cs: ConstraintSystem, a: Assignment) -> bool {
    forall|g: int, row: int|
        0 <= g < cs.gates@.len() && 0 <= row < a.n ==> #[trigger] gate_ok_at(cs, a, g, row)
}

/// Copy constraint `i` holds: its two cells resolve to the same value.
pub open spec fn copy_ok_at(a: Assignment, i: int) -> bool {
    a.cell_value(a.copies@[i].left) == a.cell_value(a.copies@[i].right)
}

pub open spec fn copies_ok(a: Assignment) -> bool {
    forall|i: int| 0 <= i < a.copies@.len() ==> #[trigger] copy_ok_at(a, i)
}

/// Instance binding `i` holds: its row exists in the supplied public
/// input, and the bound cell resolves to exactly that value.  An unknown
/// cell never equals a concrete public input.
pub open spec fn binding_ok_at(a: Assignment, inst: Seq<Seq<Fp>>, i: int) -> bool {
    let b = a.bindings@[i];
    &&& (b.column as int) < inst.len()
    &&& (b.row as int) < inst[b.column as int].len()
    &&& a.cell_value(b.cell) == Value::Known(inst[b.column as int][b.row as int])
}

pub open spec fn bindings_ok(a: Assignment, inst: Seq<Seq<Fp>>) -> bool {
    forall|i: int| 0 <= i < a.bindings@.len() ==> #[trigger] binding_ok_at(a, inst, i)
}

/// Every constraint class holds.
pub open spec fn satisfied(cs: ConstraintSystem, a: Assignment, inst: Seq<Seq<Fp>>) -> bool {
    &&& gates_ok(cs, a)
    &&& copies_ok(a)
    &&& bindings_ok(a, inst)
}

/// One violated constraint: its class, its name or index, and where.
#[derive(Clone, PartialEq, Eq, Debug)]
pub enum Violation {
    /// A gate polynomial did not evaluate to zero under an enabled
    /// selector.
    GateUnsatisfied { gate: usize, name: &'static str, row: usize },
    /// Two cells bound by a copy constraint hold different values.
    CopyMismatch { index: usize, left: Cell, right: Cell },
    /// A bound cell does not equal its public input, or the binding points
    /// outside the supplied instance columns.
    InstanceMismatch { index: usize, column: usize, row: usize },
}

pub open spec fn is_gate_violation(v: Violation, g: int, row: int) -> bool {
    match v {
        Violation::GateUnsatisfied { gate, row: rw, .. } => gate == g && rw == row,
        _ => false,
    }
}

pub open spec fn has_gate_violation(vs: Seq<Violation>, g: int, row: int) -> bool {
    exists|i: int| 0 <= i < vs.len() && is_gate_violation(#[trigger] vs[i], g, row)
}

pub open spec fn is_copy_violation(v: Violation, c: int) -> bool {
    match v {
        Violation::CopyMismatch { index, .. } => index == c,
        _ => false,
    }
}

pub open spec fn has_copy_violation(vs: Seq<Violation>, c: int) -> bool {
    exists|i: int| 0 <= i < vs.len() && is_copy_violation(#[trigger] vs[i], c)
}

pub open spec fn is_instance_violation(v: Violation, b: int) -> bool {
    match v {
        Violation::InstanceMismatch { index, .. } => index == b,
        _ => false,
    }
}

pub open spec fn has_instance_violation(vs: Seq<Violation>, b: int) -> bool {
    exists|i: int| 0 <= i < vs.len() && is_instance_violation(#[trigger] vs[i], b)
}

/// A reported violation points at a constraint that really is violated,
/// and carries that constraint's own data.
pub open spec fn violation_justified(
    cs: ConstraintSystem,
    a: Assignment,
    inst: Seq<Seq<Fp>>,
    v: Violation,
) -> bool {
    match v {
        Violation::GateUnsatisfied { gate, name, row } => {
            &&& gate < cs.gates@.len()
            &&& row < a.n
            &&& !gate_ok_at(cs, a, gate as int, row as int)
        },
        Violation::CopyMismatch { index, left, right } => {
            &&& index < a.copies@.len()
            &&& !copy_ok_at(a, index as int)
            &&& left == a.copies@[index as int].left
            &&& right == a.copies@[index as int].right
        },
        Violation::InstanceMismatch { index, column, row } => {
            &&& index < a.bindings@.len()
            &&& !binding_ok_at(a, inst, index as int)
            &&& column == a.bindings@[index as int].column
            &&& row == a.bindings@[index as int].row
        },
    }
}

/// The laid-out table, the frozen constraint system, and the supplied
/// public inputs, ready to be checked.
pub struct MockProver {
    pub cs: ConstraintSystem,
    pub table: Assignment,
    pub instance: Vec<Vec<Fp>>,
}

impl MockProver {
    /// The table fits the constraint system, and everything held is
    /// reduced.
    pub open spec fn wf(self) -> bool {
        &&& self.table.wf()
        &&& self.cs.gates_wf()
        &&& self.cs.num_advice == self.table.advice@.len()
        &&& self.cs.num_selectors == self.table.selectors@.len()
        &&& forall|i: int, j: int|
            0 <= i < self.instance@.len() && 0 <= j < (#[trigger] self.instance@[i])@.len() ==> (
            #[trigger] self.instance@[i]@[j]).wf()
    }

    /// Configures the circuit, lays it out into a `2^k`-row table, and
    /// wraps the result for checking.  Fails — with the layout error the
    /// synthesis hit — exactly when `2^k` is too small for the circuit's
    /// ten rows.
    pub fn run(k: u32, circuit: &MyCircuit, instance: Vec<Vec<Fp>>) -> (r: Result<
        MockProver,
        SynthesisError,
    >)
        requires
            k < 32,
            circuit.wf(),
            forall|i: int, j: int|
                0 <= i < instance@.len() && 0 <= j < (#[trigger] instance@[i])@.len() ==> (
                #[trigger] instance@[i]@[j]).wf(),
        ensures
            r is Ok <==> (1usize << k) >= 10,
            r is Err ==> r == Result::<MockProver, SynthesisError>::Err(
                SynthesisError::RowOverflow,
            ),
            r matches Ok(p) ==> {
                &&& p.wf()
                &&& canonical_gates(p.cs)
                &&& circuit_layout(p.table, circuit.x, circuit.constant)
                &&& p.instance@ == instance@
                &&& p.table.n == (1usize << k)
            },
    {
        let n = 1usize << k;
        proof {
            assert(n >= 1) by (bit_vector)
                requires
                    n == 1usize << k,
                    k < 32,
            ;
        }
        let mut meta = ConstraintSystem::new();
        let config = MyCircuit::configure(&mut meta);
        meta.freeze();
        let equality = copy_columns(&meta.equality);
        let mut lay = Layouter::new(n, 2, 1, 2, equality);
        match circuit.synthesize(config, &mut lay) {
            Result::Ok(u) => u,
            Result::Err(e) => {
                return Result::Err(e);
            },
        };
        Result::Ok(MockProver { cs: meta, table: lay.table, instance })
    }

    /// Checks every constraint and reports success or the exhaustive list
    /// of violations: success exactly when the table satisfies every gate,
    /// copy and instance-binding constraint; otherwise a non-empty list
    /// holding one entry for each violated constraint and nothing else.
    pub fn verify(&self) -> (r: Result<(), Vec<Violation>>)
        requires
            self.wf(),
        ensures
            r is Ok <==> satisfied(self.cs, self.table, instance_views(self.instance@)),
            r matches Err(vs) ==> {
                let inst = instance_views(self.instance@);
                &&& vs@.len() > 0
                &&& forall|i: int|
                    0 <= i < vs@.len() ==> violation_justified(
                        self.cs,
                        self.table,
                        inst,
                        #[trigger] vs@[i],
                    )
                &&& forall|g: int, row: int|
                    0 <= g < self.cs.gates@.len() && 0 <= row < self.table.n ==> (
                    has_gate_violation(vs@, g, row) <==> !gate_ok_at(self.cs, self.table, g, row))
                &&& forall|i: int|
                    0 <= i < self.table.copies@.len() ==> (has_copy_violation(vs@, i)
                        <==> !copy_ok_at(self.table, i))
                &&& forall|i: int|
                    0 <= i < self.table.bindings@.len() ==> (has_instance_violation(vs@, i)
                        <==> !binding_ok_at(self.table, inst, i))
            },
    {
        let ghost inst = instance_views(self.instance@);
        let mut vs: Vec<Violation> = Vec::new();
        let mut g: usize = 0;
        while g < self.cs.gates.len()
            invariant
                g <= self.cs.gates@.len(),
                forall|i: int|
                    0 <= i < vs@.len() ==> violation_justified(
                        self.cs,
                        self.table,
                        inst,
                        #[trigger] vs@[i],
                    ),
                forall|g2: int, row2: int|
                    0 <= g2 < g && 0 <= row2 < self.table.n && !gate_ok_at(
                        self.cs,
                        self.table,
                        g2,
                        row2,
                    ) ==> has_gate_violation(vs@, g2, row2),
            decreases self.cs.gates@.len() - g,
        {
            let gate = &self.cs.gates[g];
            let mut row: usize = 0;
            while row < self.table.n
                invariant
                    g < self.cs.gates@.len(),
                    row <= self.table.n,
                    forall|i: int|
                        0 <= i < vs@.len() ==> violation_justified(
                            self.cs,
                            self.table,
                            inst,
                            #[trigger] vs@[i],
                        ),
                    forall|g2: int, row2: int|
                        0 <= g2 < g && 0 <= row2 < self.table.n && !gate_ok_at(
                            self.cs,
                            self.table,
                            g2,
                            row2,
                        ) ==> has_gate_violation(vs@, g2, row2),
                    forall|row2: int|
                        0 <= row2 < row && !gate_ok_at(self.cs, self.table, g as int, row2)
                            ==> has_gate_violation(vs@, g as int, row2),
                decreases self.table.n - row,
            {
                let sel_on = self.table.selectors[gate.selector.index][row];
                if sel_on {
                    let val = eval_expr(&gate.poly, &self.table, row);
                    let is_zero = match val {
                        Value::Known(f) => f.repr == 0,
                        Value::Unknown => false,
                    };
                    if !is_zero {
                        let ghost prev = vs@;
                        vs.push(
                            Violation::GateUnsatisfied { gate: g, name: gate.name, row },
                        );
                        proof {
                            assert(is_gate_violation(vs@[prev.len() as int], g as int, row as int));
                            assert forall|g2: int, row2: int|
                                0 <= g2 < g && 0 <= row2 < self.table.n && !gate_ok_at(
                                    self.cs,
                                    self.table,
                                    g2,
                                    row2,
                                ) implies has_gate_violation(vs@, g2, row2) by {
                                assert(has_gate_violation(prev, g2, row2));
                                let i = choose|i: int|
                                    0 <= i < prev.len() && is_gate_violation(
                                        #[trigger] prev[i],
                                        g2,
                                        row2,
                                    );
                                assert(is_gate_violation(vs@[i], g2, row2));
                            }
                            assert forall|row2: int|
                                0 <= row2 < row + 1 && !gate_ok_at(
                                    self.cs,
                                    self.table,
                                    g as int,
                                    row2,
                                ) implies has_gate_violation(vs@, g as int, row2) by {
                                if row2 < row {
                                    assert(has_gate_violation(prev, g as int, row2));
                                    let i = choose|i: int|
                                        0 <= i < prev.len() && is_gate_violation(
                                            #[trigger] prev[i],
                                            g as int,
                                            row2,
                                        );
                                    assert(is_gate_violation(vs@[i], g as int, row2));
                                }
                            }
                        }
                    }
                }
                row = row + 1;
            }
            g = g + 1;
        }
        let mut c: usize = 0;
        while c < self.table.copies.len()
            invariant
                c <= self.table.copies@.len(),
                forall|i: int|
                    0 <= i < vs@.len() ==> violation_justified(
                        self.cs,
                        self.table,
                        inst,
                        #[trigger] vs@[i],
                    ),
                forall|g2: int, row2: int|
                    0 <= g2 < self.cs.gates@.len() && 0 <= row2 < self.table.n && !gate_ok_at(
                        self.cs,
                        self.table,
                        g2,
                        row2,
                    ) ==> has_gate_violation(vs@, g2, row2),
                forall|c2: int|
                    0 <= c2 < c && !copy_ok_at(self.table, c2) ==> has_copy_violation(vs@, c2),
            decreases self.table.copies@.len() - c,
        {
            let pair = self.table.copies[c];
            let lv = self.table.get_cell(pair.left);
            let rv = self.table.get_cell(pair.right);
            if !(lv == rv) {
                let ghost prev = vs@;
                vs.push(Violation::CopyMismatch { index: c, left: pair.left, right: pair.right });
                proof {
                    assert(is_copy_violation(vs@[prev.len() as int], c as int));
                    assert forall|g2: int, row2: int|
                        0 <= g2 < self.cs.gates@.len() && 0 <= row2 < self.table.n && !gate_ok_at(
                            self.cs,
                            self.table,
                            g2,
                            row2,
                        ) implies has_gate_violation(vs@, g2, row2) by {
                        assert(has_gate_violation(prev, g2, row2));
                        let i = choose|i: int|
                            0 <= i < prev.len() && is_gate_violation(#[trigger] prev[i], g2, row2);
                        assert(is_gate_violation(vs@[i], g2, row2));
                    }
                    assert forall|c2: int|
                        0 <= c2 < c + 1 && !copy_ok_at(self.table, c2) implies has_copy_violation(
                        vs@,
                        c2,
                    ) by {
                        if c2 < c {
                            assert(has_copy_violation(prev, c2));
                            let i = choose|i: int|
                                0 <= i < prev.len() && is_copy_violation(#[trigger] prev[i], c2);
                            assert(is_copy_violation(vs@[i], c2));
                        }
                    }
                }
            }
            c = c + 1;
        }
        let mut b: usize = 0;
        while b < self.table.bindings.len()
            invariant
                b <= self.table.bindings@.len(),
                forall|i: int|
                    0 <= i < vs@.len() ==> violation_justified(
                        self.cs,
                        self.table,
                        inst,
                        #[trigger] vs@[i],
                    ),
                forall|g2: int, row2: int|
                    0 <= g2 < self.cs.gates@.len() && 0 <= row2 < self.table.n && !gate_ok_at(
                        self.cs,
                        self.table,
                        g2,
                        row2,
                    ) ==> has_gate_violation(vs@, g2, row2),
                forall|c2: int|
                    0 <= c2 < self.table.copies@.len() && !copy_ok_at(self.table, c2)
                        ==> has_copy_violation(vs@, c2),
                forall|b2: int|
                    0 <= b2 < b && !binding_ok_at(self.table, inst, b2) ==> has_instance_violation(
                        vs@,
                        b2,
                    ),
            decreases self.table.bindings@.len() - b,
        {
            let binding = self.table.bindings[b];
            let mut ok: bool = false;
            if binding.column < self.instance.len() {
                let col = &self.instance[binding.column];
                if binding.row < col.len() {
                    let expected = col[binding.row];
                    let got = self.table.get_cell(binding.cell);
                    ok = got == Value::Known(expected);
                }
            }
            if !ok {
                let ghost prev = vs@;
                vs.push(
                    Violation::InstanceMismatch {
                        index: b,
                        column: binding.column,
                        row: binding.row,
                    },
                );
                proof {
                    assert(is_instance_violation(vs@[prev.len() as int], b as int));
                    assert(!binding_ok_at(self.table, inst, b as int));
                    assert forall|g2: int, row2: int|
                        0 <= g2 < self.cs.gates@.len() && 0 <= row2 < self.table.n && !gate_ok_at(
                            self.cs,
                            self.table,
                            g2,
                            row2,
                        ) implies has_gate_violation(vs@, g2, row2) by {
                        assert(has_gate_violation(prev, g2, row2));
                        let i = choose|i: int|
                            0 <= i < prev.len() && is_gate_violation(#[trigger] prev[i], g2, row2);
                        assert(is_gate_violation(vs@[i], g2, row2));
                    }
                    assert forall|c2: int|
                        0 <= c2 < self.table.copies@.len() && !copy_ok_at(self.table, c2) implies
                        has_copy_violation(vs@, c2) by {
                        assert(has_copy_violation(prev, c2));
                        let i = choose|i: int|
                            0 <= i < prev.len() && is_copy_violation(#[trigger] prev[i], c2);
                        assert(is_copy_violation(vs@[i], c2));
                    }
                    assert forall|b2: int|
                        0 <= b2 < b + 1 && !binding_ok_at(self.table, inst, b2) implies
                        has_instance_violation(vs@, b2) by {
                        if b2 < b {
                            assert(has_instance_violation(prev, b2));
                            let i = choose|i: int|
                                0 <= i < prev.len() && is_instance_violation(
                                    #[trigger] prev[i],
                                    b2,
                                );
                            assert(is_instance_violation(vs@[i], b2));
                        }
                    }
                }
            }
            b = b + 1;
        }
        if vs.len() == 0 {
            proof {
                assert forall|g2: int, row2: int|
                    0 <= g2 < self.cs.gates@.len() && 0 <= row2 < self.table.n implies
                    gate_ok_at(self.cs, self.table, g2, row2) by {
                    if !gate_ok_at(self.cs, self.table, g2, row2) {
                        assert(has_gate_violation(vs@, g2, row2));
                    }
                }
                assert forall|c2: int|
                    0 <= c2 < self.table.copies@.len() implies copy_ok_at(self.table, c2) by {
                    if !copy_ok_at(self.table, c2) {
                        assert(has_copy_violation(vs@, c2));
                    }
                }
                assert forall|b2: int|
                    0 <= b2 < self.table.bindings@.len() implies binding_ok_at(
                    self.table,
                    inst,
                    b2,
                ) by {
                    if !binding_ok_at(self.table, inst, b2) {
                        assert(has_instance_violation(vs@, b2));
                    }
                }
            }
            Result::Ok(())
        } else {
            proof {
                let v0 = vs@[0];
                assert(violation_justified(self.cs, self.table, inst, v0));
                match v0 {
                    Violation::GateUnsatisfied { gate, name, row } => {
                        assert(!gate_ok_at(self.cs, self.table, gate as int, row as int));
                    },
                    Violation::CopyMismatch { index, .. } => {
                        assert(!copy_ok_at(self.table, index as int));
                    },
                    Violation::InstanceMismatch { index, .. } => {
                        assert(!binding_ok_at(self.table, inst, index as int));
                    },
                }
                assert(!satisfied(self.cs, self.table, inst));
                assert forall|g2: int, row2: int|
                    0 <= g2 < self.cs.gates@.len() && 0 <= row2 < self.table.n && has_gate_violation(
                        vs@,
                        g2,
                        row2,
                    ) implies !gate_ok_at(self.cs, self.table, g2, row2) by {
                    let i = choose|i: int|
                        0 <= i < vs@.len() && is_gate_violation(#[trigger] vs@[i], g2, row2);
                    assert(violation_justified(self.cs, self.table, inst, vs@[i]));
                }
                assert forall|c2: int|
                    0 <= c2 < self.table.copies@.len() && has_copy_violation(vs@, c2) implies
                    !copy_ok_at(self.table, c2) by {
                    let i = choose|i: int|
                        0 <= i < vs@.len() && is_copy_violation(#[trigger] vs@[i], c2);
                    assert(violation_justified(self.cs, self.table, inst, vs@[i]));
                }
                assert forall|b2: int|
                    0 <= b2 < self.table.bindings@.len() && has_instance_violation(vs@, b2) implies
                    !binding_ok_at(self.table, inst, b2) by {
                    let i = choose|i: int|
                        0 <= i < vs@.len() && is_instance_violation(#[trigger] vs@[i], b2);
                    assert(violation_justified(self.cs, self.table, inst, vs@[i]));
                }
            }
            Result::Err(vs)
        }
    }
}

/// A fresh copy of the equality-enabled column list.
fn copy_columns(cols: &Vec<crate::columns::Column>) -> (r: Vec<crate::columns::Column>)
    ensures
        r@ == cols@,
{
    let mut out: Vec<crate::columns::Column> = Vec::new();
    let mut i: usize = 0;
    while i < cols.len()
        invariant
            i <= cols@.len(),
            out@ == cols@.subrange(0, i as int),
        decreases cols@.len() - i,
    {
        out.push(cols[i]);
        proof {
            assert(out@ =~= cols@.subrange(0, i + 1));
        }
        i = i + 1;
    }
    proof {
        assert(out@ =~= cols@);
    }
    out
}

} // verus!
