//! Gate polynomials.
//!
//! A gate's identity is a polynomial expression over queried advice cells —
//! the current row and fixed relative rotations — and constants.  The
//! verifier evaluates the same expression tree at every row; rotations wrap
//! around the end of the table, so evaluation is total.

use vstd::arithmetic::div_mod::lemma_add_mod_noop_right;
use vstd::arithmetic::div_mod::lemma_mod_sub_multiples_vanish;
use vstd::arithmetic::div_mod::lemma_small_mod;
use vstd::prelude::*;

use crate::field::Fp;
use crate::table::Assignment;
use crate::value::v_add;
use crate::value::v_mul;
use crate::value::v_sub;
use crate::value::Value;

verus! {

/// A polynomial over queried advice cells and constants.
#[derive(Debug)]
pub enum Expr {
    /// The value of one advice column, read `rotation` rows below the row
    /// under evaluation (wrapping around the end of the table).
    Advice { column: usize, rotation: usize },
    /// A constant field element.
    Constant(Fp),
    Sum(Box<Expr>, Box<Expr>),
    Sub(Box<Expr>, Box<Expr>),
    Product(Box<Expr>, Box<Expr>),
}

/// Every queried column is declared, and every constant is reduced.
pub open spec fn wf_expr(e: Expr, num_advice: nat) -> bool
    decreases e,
{
    match e {
        Expr::Advice { column, rotation } => column < num_advice,
        Expr::Constant(f) => f.wf(),
        Expr::Sum(l, r) => wf_expr(*l, num_advice) && wf_expr(*r, num_advice),
        Expr::Sub(l, r) => wf_expr(*l, num_advice) && wf_expr(*r, num_advice),
        Expr::Product(l, r) => wf_expr(*l, num_advice) && wf_expr(*r, num_advice),
    }
}

/// The row a rotation lands on, wrapping around a table of `n` rows.
pub open spec fn rotated_row(row: int, rotation: nat, n: nat) -> int {
    (row + rotation) % (n as int)
}

/// The value of an expression at one row of a table, with `Unknown`
/// absorbing through every operation.
pub open spec fn eval_expr_spec(e: Expr, a: Assignment, row: int) -> Value
    decreases e,
{
    match e {
        Expr::Advice { column, rotation } => a.advice_at(
            column as int,
            rotated_row(row, rotation as nat, a.n as nat),
        ),
        Expr::Constant(f) => Value::Known(f),
        Expr::Sum(l, r) => v_add(eval_expr_spec(*l, a, row), eval_expr_spec(*r, a, row)),
        Expr::Sub(l, r) => v_sub(eval_expr_spec(*l, a, row), eval_expr_spec(*r, a, row)),
        Expr::Product(l, r) => v_mul(eval_expr_spec(*l, a, row), eval_expr_spec(*r, a, row)),
    }
}

/// The row a rotation lands on, computed without overflow.
fn rotated_index(row: usize, rotation: usize, n: usize) -> (idx: usize)
    requires
        row < n,
    ensures
        idx == rotated_row(row as int, rotation as nat, n as nat),
        idx < n,
{
    let rot = rotation % n;
    proof {
        lemma_add_mod_noop_right(row as int, rotation as int, n as int);
    }
    if row >= n - rot {
        let idx = row - (n - rot);
        proof {
            lemma_mod_sub_multiples_vanish(row + rot, n as int);
            lemma_small_mod((row + rot - n) as nat, n as nat);
        }
        idx
    } else {
        let idx = row + rot;
        proof {
            lemma_small_mod((row + rot) as nat, n as nat);
        }
        idx
    }
}

/// Evaluates an expression at one row of the table.
pub fn eval_expr(e: &Expr, a: &Assignment, row: usize) -> (r: Value)
    requires
        a.wf(),
        wf_expr(*e, a.advice@.len() as nat),
        row < a.n,
    ensures
        r == eval_expr_spec(*e, *a, row as int),
        r.wf(),
    decreases *e,
{
    match e {
        Expr::Advice { column, rotation } => {
            let idx = rotated_index(row, *rotation, a.n);
            a.get_advice(*column, idx)
        },
        Expr::Constant(f) => Value::Known(*f),
        Expr::Sum(l, r) => {
            let lv = eval_expr(l, a, row);
            let rv = eval_expr(r, a, row);
            lv.add(rv)
        },
        Expr::Sub(l, r) => {
            let lv = eval_expr(l, a, row);
            let rv = eval_expr(r, a, row);
            lv.sub(rv)
        },
        Expr::Product(l, r) => {
            let lv = eval_expr(l, a, row);
            let rv = eval_expr(r, a, row);
            lv.mul(rv)
        },
    }
}

} // verus!
