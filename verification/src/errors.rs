//! Failures the pipeline can report.
//!
//! Configuration mistakes (wiring a gate over an undeclared column, touching
//! a frozen configurator) are programming errors, excluded by preconditions
//! rather than reported.  Synthesis-time failures are ordinary results,
//! propagated to the circuit-build caller.

use vstd::prelude::*;

verus! {

/// An operation issued against an incompatible layout during synthesis.
#[derive(Clone, Copy, PartialEq, Eq, Structural, Debug)]
pub enum SynthesisError {
    /// A region or row index would exceed the table height.
    RowOverflow,
    /// A copy constraint touched a column without equality enabled.
    EqualityNotEnabled,
    /// A second selector would be enabled on a row that already has one.
    SelectorClash,
}

/// The bounded computation refused to run at all: its input was out of
/// range.  Distinct from a constraint violation.
#[derive(Clone, Copy, PartialEq, Eq, Structural, Debug)]
pub struct ComputationBoundViolation {
    /// The rejected input.
    pub input: u64,
}

} // verus!
