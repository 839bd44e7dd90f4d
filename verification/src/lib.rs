//! A small arithmetic constraint system in the PLONK style: a fixed table of
//! advice, instance and fixed columns, polynomial gate identities toggled by
//! selectors, copy constraints, and a mock verifier that checks a synthesized
//! witness against every constraint.  The concrete circuit encodes
//! `y = x^3 + x + c` for a private `x` and a circuit-baked constant `c`.

#![verifier::loop_isolation(false)]

pub mod chip;
pub mod circuit;
pub mod columns;
pub mod config;
pub mod errors;
pub mod expr;
pub mod field;
pub mod laws;
pub mod layout;
pub mod prover;
pub mod table;
pub mod trace;
pub mod value;

pub use field::Fp;
pub use field::FIELD_MODULUS;
