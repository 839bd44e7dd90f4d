//! The prime field the circuit works over.
//!
//! Elements are residues modulo `FIELD_MODULUS`, the largest prime below
//! `2^32`.  Keeping the modulus under `2^32` lets every sum and product of
//! two reduced elements fit in a `u64`, so the operations stay in machine
//! arithmetic and are proved free of overflow.

use vstd::prelude::*;

verus! {

/// The largest prime below `2^32`.
pub const FIELD_MODULUS: u64 = 4294967291;

/// Field addition on residues.
pub open spec fn f_add(a: nat, b: nat) -> nat {
    (a + b) % (FIELD_MODULUS as nat)
}

/// Field subtraction on residues: `a - b` computed as `a + (p - b)`.
pub open spec fn f_sub(a: nat, b: nat) -> nat {
    (((a + FIELD_MODULUS as nat) - b) % (FIELD_MODULUS as int)) as nat
}

/// Field multiplication on residues.
pub open spec fn f_mul(a: nat, b: nat) -> nat {
    (a * b) % (FIELD_MODULUS as nat)
}

/// One element of the field, kept reduced: `repr < FIELD_MODULUS`.
#[derive(Clone, Copy, PartialEq, Eq, Structural, Debug)]
pub struct Fp {
    pub repr: u64,
}

impl Fp {
    /// A reduced representative.
    pub open spec fn wf(self) -> bool {
        self.repr < FIELD_MODULUS
    }

    /// The residue this element stands for.
    pub open spec fn val(self) -> nat {
        self.repr as nat
    }

    pub fn zero() -> (r: Fp)
        ensures
            r.repr == 0,
            r.wf(),
    {
        Fp { repr: 0 }
    }

    /// The element standing for `x` modulo the field's prime.
    pub fn from_u64(x: u64) -> (r: Fp)
        ensures
            r.val() == x as nat % (FIELD_MODULUS as nat),
            r.wf(),
    {
        Fp { repr: x % FIELD_MODULUS }
    }

    pub fn add(self, other: Fp) -> (r: Fp)
        requires
            self.wf(),
            other.wf(),
        ensures
            r.val() == f_add(self.val(), other.val()),
            r.wf(),
    {
        Fp { repr: (self.repr + other.repr) % FIELD_MODULUS }
    }

    pub fn sub(self, other: Fp) -> (r: Fp)
        requires
            self.wf(),
            other.wf(),
        ensures
            r.val() == f_sub(self.val(), other.val()),
            r.wf(),
    {
        Fp { repr: (self.repr + (FIELD_MODULUS - other.repr)) % FIELD_MODULUS }
    }

    pub fn mul(self, other: Fp) -> (r: Fp)
        requires
            self.wf(),
            other.wf(),
        ensures
            r.val() == f_mul(self.val(), other.val()),
            r.wf(),
    {
        proof {
            assert(self.repr * other.repr <= (FIELD_MODULUS - 1) * (FIELD_MODULUS - 1))
                by (nonlinear_arith)
                requires
                    self.repr <= FIELD_MODULUS - 1,
                    other.repr <= FIELD_MODULUS - 1,
            ;
        }
        Fp { repr: (self.repr * other.repr) % FIELD_MODULUS }
    }
}

/// Subtracting an element from itself gives zero.
pub proof fn lemma_f_sub_self(a: nat)
    requires
        a < FIELD_MODULUS,
    ensures
        f_sub(a, a) == 0,
{
    assert(a + (FIELD_MODULUS as nat - a) == FIELD_MODULUS as nat);
}

} // verus!
