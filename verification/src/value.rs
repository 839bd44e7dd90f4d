//! Tri-state cell values.
//!
//! A cell holds either a concrete field element, `Known`, or `Unknown` — the
//! state of every cell during the value-free structural pass.  `Unknown`
//! absorbs through the arithmetic combinators: an operation with an unknown
//! operand yields an unknown result, so an unresolved value can never be
//! mistaken for real arithmetic.

use vstd::prelude::*;

use crate::field::f_add;
use crate::field::f_mul;
use crate::field::f_sub;
use crate::field::Fp;

verus! {

/// A cell value: a concrete field element, or not yet resolved.
#[derive(Clone, Copy, PartialEq, Eq, Structural, Debug)]
pub enum Value {
    Known(Fp),
    Unknown,
}

/// Addition with absorption: unknown whenever an operand is unknown.
pub open spec fn v_add(a: Value, b: Value) -> Value {
    match (a, b) {
        (Value::Known(x), Value::Known(y)) => Value::Known(Fp { repr: f_add(x.val(), y.val()) as u64 }),
        _ => Value::Unknown,
    }
}

/// Subtraction with absorption.
pub open spec fn v_sub(a: Value, b: Value) -> Value {
    match (a, b) {
        (Value::Known(x), Value::Known(y)) => Value::Known(Fp { repr: f_sub(x.val(), y.val()) as u64 }),
        _ => Value::Unknown,
    }
}

/// Multiplication with absorption.
pub open spec fn v_mul(a: Value, b: Value) -> Value {
    match (a, b) {
        (Value::Known(x), Value::Known(y)) => Value::Known(Fp { repr: f_mul(x.val(), y.val()) as u64 }),
        _ => Value::Unknown,
    }
}

impl Value {
    /// A known value carries a reduced field element.
    pub open spec fn wf(self) -> bool {
        match self {
            Value::Known(f) => f.wf(),
            Value::Unknown => true,
        }
    }

    pub fn known(f: Fp) -> (r: Value)
        ensures
            r == Value::Known(f),
    {
        Value::Known(f)
    }

    pub fn unknown() -> (r: Value)
        ensures
            r == Value::Unknown,
    {
        Value::Unknown
    }

    pub fn add(self, other: Value) -> (r: Value)
        requires
            self.wf(),
            other.wf(),
        ensures
            r == v_add(self, other),
            r.wf(),
    {
        match (self, other) {
            (Value::Known(a), Value::Known(b)) => Value::Known(a.add(b)),
            _ => Value::Unknown,
        }
    }

    pub fn sub(self, other: Value) -> (r: Value)
        requires
            self.wf(),
            other.wf(),
        ensures
            r == v_sub(self, other),
            r.wf(),
    {
        match (self, other) {
            (Value::Known(a), Value::Known(b)) => Value::Known(a.sub(b)),
            _ => Value::Unknown,
        }
    }

    pub fn mul(self, other: Value) -> (r: Value)
        requires
            self.wf(),
            other.wf(),
        ensures
            r == v_mul(self, other),
            r.wf(),
    {
        match (self, other) {
            (Value::Known(a), Value::Known(b)) => Value::Known(a.mul(b)),
            _ => Value::Unknown,
        }
    }
}

} // verus!
