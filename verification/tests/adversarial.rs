//! Tampered tables, synthesis-time failures, and the trace-path bound.

use halo::circuit::MyCircuit;
use halo::columns::Cell;
use halo::columns::Column;
use halo::columns::ColumnKind;
use halo::columns::Selector;
use halo::config::FieldConfig;
use halo::errors::ComputationBoundViolation;
use halo::errors::SynthesisError;
use halo::field::Fp;
use halo::layout::Layouter;
use halo::chip::FieldChip;
use halo::prover::MockProver;
use halo::prover::Violation;
use halo::table::Assignment;
use halo::table::CopyConstraint;
use halo::trace::polynomial;
use halo::value::Value;

fn valid_prover() -> MockProver {
    let circuit = MyCircuit::new(Fp::from_u64(5), Value::known(Fp::from_u64(3)));
    MockProver::run(4, &circuit, vec![vec![Fp::from_u64(35)]]).unwrap()
}

fn advice_cell(col: usize, row: usize) -> Cell {
    Cell { column: Column { kind: ColumnKind::Advice, index: col }, row }
}

#[test]
fn forced_unequal_copy_fails_verification() {
    let mut prover = valid_prover();
    // Row 0 holds x = 3 and row 1 holds the constant 5: binding them is an
    // unsatisfiable copy constraint, constructible only at this level.
    prover.table.copies.push(CopyConstraint { left: advice_cell(0, 0), right: advice_cell(0, 1) });
    let violations = prover.verify().unwrap_err();
    assert!(violations
        .iter()
        .any(|v| matches!(v, Violation::CopyMismatch { index: 9, .. })));
}

#[test]
fn adversarial_cell_breaks_the_mul_gate() {
    let mut prover = valid_prover();
    // Row 3 should hold x^2 = 9; forcing 7 violates the mul gate at row 2.
    prover.table.advice[0][3] = Value::known(Fp::from_u64(7));
    let violations = prover.verify().unwrap_err();
    assert!(violations.iter().any(|v| match v {
        Violation::GateUnsatisfied { gate, name, row } => {
            *gate == 0 && *name == "mul" && *row == 2
        },
        _ => false,
    }));
}

#[test]
fn disabling_a_selector_unconstrains_the_row() {
    let mut prover = valid_prover();
    prover.table.advice[0][3] = Value::known(Fp::from_u64(7));
    // With the selector off, the broken identity at row 2 is no longer
    // checked; only the copy constraint into row 4 still fails.
    prover.table.selectors[0][2] = false;
    let violations = prover.verify().unwrap_err();
    assert!(!violations
        .iter()
        .any(|v| matches!(v, Violation::GateUnsatisfied { row: 2, .. })));
    assert!(violations
        .iter()
        .any(|v| matches!(v, Violation::CopyMismatch { .. })));
}

fn bare_config() -> FieldConfig {
    FieldConfig {
        advice0: Column { kind: ColumnKind::Advice, index: 0 },
        advice1: Column { kind: ColumnKind::Advice, index: 1 },
        instance: Column { kind: ColumnKind::Instance, index: 0 },
        constant: Column { kind: ColumnKind::Fixed, index: 0 },
        s_mul: Selector { index: 0 },
        s_add: Selector { index: 1 },
    }
}

#[test]
fn copies_need_equality_enabled() {
    // A layouter with no equality-enabled columns refuses every copy.
    let mut lay = Layouter::new(16, 2, 1, 2, Vec::new());
    let chip = FieldChip::new(bare_config());
    assert_eq!(chip.config().s_mul, Selector { index: 0 });
    assert!(matches!(
        chip.load_constant(&mut lay, Fp::from_u64(5)),
        Err(SynthesisError::EqualityNotEnabled)
    ));
    let a = chip.load_private(&mut lay, Value::known(Fp::from_u64(3))).unwrap();
    assert!(matches!(
        chip.mul(&mut lay, &a, &a),
        Err(SynthesisError::EqualityNotEnabled)
    ));
    assert!(matches!(
        chip.expose_public(&mut lay, &a, 0),
        Err(SynthesisError::EqualityNotEnabled)
    ));
}

#[test]
fn one_selector_per_row_is_enforced() {
    let mut table = Assignment::new(16, 2, 1, 2);
    assert!(table.enable_selector(0, 3).is_ok());
    assert!(matches!(table.enable_selector(1, 3), Err(SynthesisError::SelectorClash)));
}

#[test]
fn region_past_the_table_overflows() {
    let mut lay = Layouter::new(2, 2, 1, 2, Vec::new());
    let chip = FieldChip::new(bare_config());
    assert!(chip.load_private(&mut lay, Value::unknown()).is_ok());
    assert!(chip.load_private(&mut lay, Value::unknown()).is_ok());
    assert!(matches!(
        chip.load_private(&mut lay, Value::unknown()),
        Err(SynthesisError::RowOverflow)
    ));
}

#[test]
fn field_arithmetic_wraps_at_the_modulus() {
    assert_eq!(Fp::zero().repr, 0);
    assert_eq!(Fp::from_u64(4294967291).repr, 0);
    assert_eq!(Fp::from_u64(4294967290).add(Fp::from_u64(1)).repr, 0);
    assert_eq!(Fp::from_u64(4294967290).mul(Fp::from_u64(4294967290)).repr, 1);
    assert_eq!(Fp::from_u64(0).sub(Fp::from_u64(1)).repr, 4294967290);
    assert_eq!(Fp::from_u64(3).mul(Fp::from_u64(3)).repr, 9);
}

#[test]
fn unknown_absorbs_through_arithmetic() {
    let known = Value::known(Fp::from_u64(3));
    assert_eq!(Value::unknown().add(known), Value::unknown());
    assert_eq!(known.mul(Value::unknown()), Value::unknown());
    assert_eq!(Value::unknown().sub(Value::unknown()), Value::unknown());
    assert_eq!(known.add(known), Value::known(Fp::from_u64(6)));
}

#[test]
fn test_polynomial() {
    let test_x: u64 = 3;
    let output = polynomial(3).unwrap();
    assert_eq!(
        output,
        test_x * test_x * test_x + test_x + 5,
        "The output is not correct. The polynomial is y = x^3 + x + 5"
    );
}

#[test]
fn polynomial_refuses_inputs_above_its_bound() {
    assert_eq!(polynomial(100), Ok(1000105));
    assert_eq!(polynomial(101), Err(ComputationBoundViolation { input: 101 }));
    assert_eq!(polynomial(0), Ok(5));
}
