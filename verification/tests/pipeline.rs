//! End-to-end runs of the configure / synthesize / verify pipeline.

use halo::circuit::MyCircuit;
use halo::errors::SynthesisError;
use halo::field::Fp;
use halo::prover::MockProver;
use halo::prover::Violation;
use halo::value::Value;

fn run_case(k: u32, x: u64, c: u64, claimed: u64) -> Result<(), Vec<Violation>> {
    let circuit = MyCircuit::new(Fp::from_u64(c), Value::known(Fp::from_u64(x)));
    let public_inputs = vec![vec![Fp::from_u64(claimed)]];
    let prover = MockProver::run(k, &circuit, public_inputs).unwrap();
    prover.verify()
}

#[test]
fn x3_c5_accepts_35_rejects_36() {
    assert!(run_case(4, 3, 5, 35).is_ok());
    assert!(run_case(4, 3, 5, 36).is_err());
}

#[test]
fn x5_c5_accepts_135() {
    assert!(run_case(4, 5, 5, 135).is_ok());
}

#[test]
fn x0_c0_accepts_0_rejects_1() {
    assert!(run_case(4, 0, 0, 0).is_ok());
    assert!(run_case(4, 0, 0, 1).is_err());
}

#[test]
fn wrong_claim_reports_instance_violation() {
    let violations = run_case(4, 3, 5, 36).unwrap_err();
    assert!(!violations.is_empty());
    assert!(violations
        .iter()
        .any(|v| matches!(v, Violation::InstanceMismatch { index: 0, column: 0, row: 0 })));
}

#[test]
fn larger_k_never_changes_the_outcome() {
    assert!(run_case(5, 3, 5, 35).is_ok());
    assert!(run_case(8, 3, 5, 35).is_ok());
    assert!(run_case(5, 3, 5, 36).is_err());
    assert!(run_case(8, 3, 5, 36).is_err());
}

#[test]
fn too_small_k_is_a_layout_error() {
    let circuit = MyCircuit::new(Fp::from_u64(5), Value::known(Fp::from_u64(3)));
    let res = MockProver::run(3, &circuit, vec![vec![Fp::from_u64(35)]]);
    assert!(matches!(res, Err(SynthesisError::RowOverflow)));
}

#[test]
fn structural_pass_synthesizes_but_never_verifies() {
    let concrete = MyCircuit::new(Fp::from_u64(5), Value::known(Fp::from_u64(3)));
    let shape = concrete.without_witnesses();
    let prover = MockProver::run(4, &shape, vec![vec![Fp::from_u64(35)]]).unwrap();
    assert!(prover.verify().is_err());
    let prover = MockProver::run(4, &shape, vec![vec![Fp::from_u64(0)]]).unwrap();
    let violations = prover.verify().unwrap_err();
    assert!(violations
        .iter()
        .any(|v| matches!(v, Violation::InstanceMismatch { .. })));
}

#[test]
fn missing_instance_column_is_a_violation() {
    let circuit = MyCircuit::new(Fp::from_u64(5), Value::known(Fp::from_u64(3)));
    let prover = MockProver::run(4, &circuit, vec![]).unwrap();
    let violations = prover.verify().unwrap_err();
    assert!(violations
        .iter()
        .any(|v| matches!(v, Violation::InstanceMismatch { .. })));
}
