//! What the pipeline guarantees, proved once and for all.
//!
//! The central fact is `lemma_layout_outcome`: over the table one synthesis
//! lays out, the verifier's satisfaction predicate holds exactly for a known
//! witness checked against the public input `[x^3 + x + c]`.  Completeness,
//! soundness, independence from the table height, and the structural-pass
//! rejection all follow from it; the copy and gate laws hold of every table,
//! synthesized or adversarial.

use vstd::arithmetic::div_mod::lemma_small_mod;
use vstd::prelude::*;

use crate::circuit::canonical_gates;
use crate::circuit::circuit_layout;
use crate::config::ConstraintSystem;
use crate::expr::eval_expr_spec;
use crate::expr::rotated_row;
use crate::field::f_add;
use crate::field::f_mul;
use crate::field::lemma_f_sub_self;
use crate::field::Fp;
use crate::field::FIELD_MODULUS;
use crate::prover::binding_ok_at;
use crate::prover::bindings_ok;
use crate::prover::copies_ok;
use crate::prover::copy_ok_at;
use crate::prover::gate_ok_at;
use crate::prover::gates_ok;
use crate::prover::satisfied;
use crate::table::Assignment;
use crate::value::v_add;
use crate::value::v_mul;
use crate::value::v_sub;
use crate::value::Value;

verus! {

/// The residue of `x^3 + x + c`, computed with the field's operations.
pub open spec fn poly_val(x: nat, c: nat) -> nat {
    f_add(f_add(f_mul(f_mul(x, x), x), x), c)
}

/// The one public input the circuit owes: `x^3 + x + c` as a field element.
pub open spec fn expected_output(x: Fp, c: Fp) -> Fp {
    Fp { repr: poly_val(x.val(), c.val()) as u64 }
}

/// The public inputs the circuit accepts: a known witness, and one instance
/// column whose row 0 holds exactly `x^3 + x + c`.  An unknown witness is
/// accepted by nothing.
pub open spec fn accepted_input(x: Value, c: Fp, inst: Seq<Seq<Fp>>) -> bool {
    match x {
        Value::Known(xv) => inst.len() >= 1 && inst[0].len() >= 1 && inst[0][0]
            == expected_output(xv, c),
        Value::Unknown => false,
    }
}

/// Over a synthesized table, the gates hold exactly when the witness is
/// known: every selector-enabled row then carries an exact field identity,
/// while an unknown operand leaves a gate polynomial unresolved, which is
/// never zero.
proof fn lemma_layout_gates(cs: ConstraintSystem, a: Assignment, x: Value, c: Fp)
    requires
        canonical_gates(cs),
        circuit_layout(a, x, c),
    ensures
        gates_ok(cs, a) <==> x is Known,
{
    reveal_with_fuel(eval_expr_spec, 4);
    assert forall|row: int| 0 <= row < 9 implies rotated_row(row, 0, a.n as nat) == row
        && rotated_row(row, 1, a.n as nat) == row + 1 by {
        lemma_small_mod(row as nat, a.n as nat);
        lemma_small_mod((row + 1) as nat, a.n as nat);
    }
    match x {
        Value::Known(xv) => {
            let x2 = v_mul(x, x);
            let x3 = v_mul(x2, x);
            let s = v_add(x3, x);
            assert(v_sub(x2, x2) == Value::Known(Fp { repr: 0 })) by {
                lemma_f_sub_self(f_mul(xv.val(), xv.val()));
            }
            assert(v_sub(x3, x3) == Value::Known(Fp { repr: 0 })) by {
                lemma_f_sub_self(f_mul(f_mul(xv.val(), xv.val()), xv.val()));
            }
            assert(v_sub(s, s) == Value::Known(Fp { repr: 0 })) by {
                lemma_f_sub_self(f_add(f_mul(f_mul(xv.val(), xv.val()), xv.val()), xv.val()));
            }
            let y = v_add(s, Value::Known(c));
            assert(v_sub(y, y) == Value::Known(Fp { repr: 0 })) by {
                lemma_f_sub_self(
                    f_add(
                        f_add(f_mul(f_mul(xv.val(), xv.val()), xv.val()), xv.val()),
                        c.val(),
                    ),
                );
            }
            assert forall|g: int, row: int|
                0 <= g < cs.gates@.len() && 0 <= row < a.n implies #[trigger] gate_ok_at(
                cs,
                a,
                g,
                row,
            ) by {
                if g == 0 {
                    if a.sel_at(0, row) {
                        assert(row == 2 || row == 4);
                        if row == 2 {
                            assert(eval_expr_spec(cs.gates@[0].poly, a, 2) == v_sub(
                                v_mul(a.advice_at(0, 2), a.advice_at(1, 2)),
                                a.advice_at(0, 3),
                            ));
                        } else {
                            assert(eval_expr_spec(cs.gates@[0].poly, a, 4) == v_sub(
                                v_mul(a.advice_at(0, 4), a.advice_at(1, 4)),
                                a.advice_at(0, 5),
                            ));
                        }
                    }
                } else {
                    if a.sel_at(1, row) {
                        assert(row == 6 || row == 8);
                        if row == 6 {
                            assert(eval_expr_spec(cs.gates@[1].poly, a, 6) == v_sub(
                                v_add(a.advice_at(0, 6), a.advice_at(1, 6)),
                                a.advice_at(0, 7),
                            ));
                        } else {
                            assert(eval_expr_spec(cs.gates@[1].poly, a, 8) == v_sub(
                                v_add(a.advice_at(0, 8), a.advice_at(1, 8)),
                                a.advice_at(0, 9),
                            ));
                        }
                    }
                }
            }
        },
        Value::Unknown => {
            assert(a.sel_at(0, 2));
            assert(eval_expr_spec(cs.gates@[0].poly, a, 2) == v_sub(
                v_mul(a.advice_at(0, 2), a.advice_at(1, 2)),
                a.advice_at(0, 3),
            ));
            assert(eval_expr_spec(cs.gates@[0].poly, a, 2) == Value::Unknown);
            assert(!gate_ok_at(cs, a, 0, 2));
        },
    }
}

/// Every copy constraint a synthesis collects relates two cells it filled
/// with the same value, so the copy check always passes on an honest table.
proof fn lemma_layout_copies(a: Assignment, x: Value, c: Fp)
    requires
        circuit_layout(a, x, c),
    ensures
        copies_ok(a),
{
    assert forall|i: int| 0 <= i < a.copies@.len() implies #[trigger] copy_ok_at(a, i) by {
        if i == 0 {
        } else if i == 1 {
        } else if i == 2 {
        } else if i == 3 {
        } else if i == 4 {
        } else if i == 5 {
        } else if i == 6 {
        } else if i == 7 {
        } else {
            assert(i == 8);
        }
    }
}

/// The one instance binding holds exactly when the witness is known and the
/// supplied public input's row 0 is `x^3 + x + c`.
proof fn lemma_layout_binding(a: Assignment, x: Value, c: Fp, inst: Seq<Seq<Fp>>)
    requires
        circuit_layout(a, x, c),
    ensures
        bindings_ok(a, inst) <==> accepted_input(x, c, inst),
{
    let b = a.bindings@[0];
    if accepted_input(x, c, inst) {
        assert forall|i: int| 0 <= i < a.bindings@.len() implies #[trigger] binding_ok_at(
            a,
            inst,
            i,
        ) by {
            assert(i == 0);
        }
    } else {
        assert(!binding_ok_at(a, inst, 0));
    }
}

/// The central law: over the table one synthesis lays out, verification
/// succeeds exactly on a known witness checked against the public input
/// `[x^3 + x + c]` — completeness and soundness in one statement.
pub proof fn lemma_layout_outcome(
    cs: ConstraintSystem,
    a: Assignment,
    x: Value,
    c: Fp,
    inst: Seq<Seq<Fp>>,
)
    requires
        canonical_gates(cs),
        circuit_layout(a, x, c),
    ensures
        satisfied(cs, a, inst) <==> accepted_input(x, c, inst),
{
    lemma_layout_gates(cs, a, x, c);
    lemma_layout_copies(a, x, c);
    lemma_layout_binding(a, x, c, inst);
}

/// Completeness: for every `x` and `c`, the public input `[x^3 + x + c]`
/// satisfies the synthesized circuit.
pub proof fn lemma_valid_input_accepted(
    cs: ConstraintSystem,
    a: Assignment,
    x: Fp,
    c: Fp,
    inst: Seq<Seq<Fp>>,
)
    requires
        canonical_gates(cs),
        circuit_layout(a, Value::Known(x), c),
        inst == seq![seq![expected_output(x, c)]],
    ensures
        satisfied(cs, a, inst),
{
    lemma_layout_outcome(cs, a, Value::Known(x), c, inst);
}

/// Soundness: any claimed output other than `x^3 + x + c` leaves the
/// instance binding — and with it the whole check — violated.
pub proof fn lemma_wrong_input_rejected(
    cs: ConstraintSystem,
    a: Assignment,
    x: Fp,
    c: Fp,
    y: Fp,
    inst: Seq<Seq<Fp>>,
)
    requires
        canonical_gates(cs),
        circuit_layout(a, Value::Known(x), c),
        inst == seq![seq![y]],
        y != expected_output(x, c),
    ensures
        !satisfied(cs, a, inst),
        !binding_ok_at(a, inst, 0),
{
    lemma_layout_outcome(cs, a, Value::Known(x), c, inst);
    assert(!binding_ok_at(a, inst, 0));
}

/// The table height is immaterial: two synthesized tables for the same
/// instance — however many rows beyond the required ten each has — agree on
/// every verification outcome.
pub proof fn lemma_height_immaterial(
    cs: ConstraintSystem,
    a1: Assignment,
    a2: Assignment,
    x: Value,
    c: Fp,
    inst: Seq<Seq<Fp>>,
)
    requires
        canonical_gates(cs),
        circuit_layout(a1, x, c),
        circuit_layout(a2, x, c),
    ensures
        satisfied(cs, a1, inst) == satisfied(cs, a2, inst),
{
    lemma_layout_outcome(cs, a1, x, c, inst);
    lemma_layout_outcome(cs, a2, x, c, inst);
}

/// The structural pass is never accepted: with the witness unknown, no
/// concrete public input can satisfy the check.
pub proof fn lemma_structural_pass_rejected(
    cs: ConstraintSystem,
    a: Assignment,
    c: Fp,
    inst: Seq<Seq<Fp>>,
)
    requires
        canonical_gates(cs),
        circuit_layout(a, Value::Unknown, c),
    ensures
        !satisfied(cs, a, inst),
{
    lemma_layout_outcome(cs, a, Value::Unknown, c, inst);
}

/// Wherever verification succeeds, the two cells of every copy constraint
/// hold equal values — in any table, synthesized or not.
pub proof fn lemma_copies_agree_when_satisfied(
    cs: ConstraintSystem,
    a: Assignment,
    inst: Seq<Seq<Fp>>,
    i: int,
)
    requires
        satisfied(cs, a, inst),
        0 <= i < a.copies@.len(),
    ensures
        a.cell_value(a.copies@[i].left) == a.cell_value(a.copies@[i].right),
{
    assert(copy_ok_at(a, i));
}

/// A copy constraint whose cells disagree — constructible only at the
/// constraint-list level — defeats verification.
pub proof fn lemma_copy_mismatch_rejects(
    cs: ConstraintSystem,
    a: Assignment,
    inst: Seq<Seq<Fp>>,
    i: int,
)
    requires
        0 <= i < a.copies@.len(),
        a.cell_value(a.copies@[i].left) != a.cell_value(a.copies@[i].right),
    ensures
        !satisfied(cs, a, inst),
{
    assert(!copy_ok_at(a, i));
}

/// Wherever verification succeeds, every gate polynomial evaluates to the
/// known zero at every row where its selector is enabled.
pub proof fn lemma_gates_zero_when_satisfied(
    cs: ConstraintSystem,
    a: Assignment,
    inst: Seq<Seq<Fp>>,
    g: int,
    row: int,
)
    requires
        satisfied(cs, a, inst),
        0 <= g < cs.gates@.len(),
        0 <= row < a.n,
        a.sel_at(cs.gates@[g].selector.index as int, row),
    ensures
        eval_expr_spec(cs.gates@[g].poly, a, row) == Value::Known(Fp { repr: 0 }),
{
    assert(gate_ok_at(cs, a, g, row));
}

/// An assignment that breaks a gate identity under an enabled selector is
/// rejected.
pub proof fn lemma_gate_violation_rejects(
    cs: ConstraintSystem,
    a: Assignment,
    inst: Seq<Seq<Fp>>,
    g: int,
    row: int,
)
    requires
        0 <= g < cs.gates@.len(),
        0 <= row < a.n,
        a.sel_at(cs.gates@[g].selector.index as int, row),
        eval_expr_spec(cs.gates@[g].poly, a, row) != Value::Known(Fp { repr: 0 }),
    ensures
        !satisfied(cs, a, inst),
{
    assert(!gate_ok_at(cs, a, g, row));
}

} // verus!
