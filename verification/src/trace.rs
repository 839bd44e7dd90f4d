//! The bounded computation behind the execution-trace proving path.
//!
//! An alternative collaborator proves the same relation `y = x^3 + x + 5`
//! by tracing a whole bounded program rather than by a constraint table.
//! The program itself is this: refuse any input above 100, else return the
//! polynomial's value.  Refusal is a `ComputationBoundViolation`, distinct
//! from any constraint violation; the tracing and proving machinery around
//! the computation is outside this core.

use vstd::prelude::*;

use crate::errors::ComputationBoundViolation;

verus! {

/// Computes `y = x^3 + x + 5`, refusing inputs above 100 — on which the
/// underlying computation will not run at all.
pub fn polynomial(x: u64) -> (r: Result<u64, ComputationBoundViolation>)
    ensures
        r is Ok <==> x <= 100,
        r matches Ok(y) ==> y == x * x * x + x + 5,
        r matches Err(e) ==> e.input == x,
{
    if x > 100 {
        return Result::Err(ComputationBoundViolation { input: x });
    }
    proof {
        assert(x * x * x <= 100 * 100 * 100) by (nonlinear_arith)
            requires
                x <= 100,
        ;
        assert(x * x <= 100 * 100) by (nonlinear_arith)
            requires
                x <= 100,
        ;
    }
    Result::Ok(x * x * x + x + 5)
}

} // verus!
