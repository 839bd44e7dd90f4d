//! The witness engine.
//!
//! The chip is the sole component that assigns cell values, enables
//! selectors and creates copy constraints.  Each operation opens its own
//! region: loads take one row; `mul` and `add` take two, enable their
//! selector on the first and leave the result on the second.  Every copy is
//! checked against the equality-enabled column list, and a row that would
//! leave the table is refused — failures are returned, never dropped.

use vstd::prelude::*;

use crate::columns::Cell;
use crate::columns::ColumnKind;
use crate::columns::Column;
use crate::columns::Selector;
use crate::config::add_gate_poly;
use crate::config::build_add_poly;
use crate::config::build_mul_poly;
use crate::config::mul_gate_poly;
use crate::config::ConstraintSystem;
use crate::config::FieldConfig;
use crate::expr::wf_expr;
use crate::errors::SynthesisError;
use crate::field::Fp;
use crate::layout::Layouter;
use crate::layout::Number;
use crate::table::CopyConstraint;
use crate::value::v_add;
use crate::value::v_mul;
use crate::value::Value;

verus! {

/// The configured columns and selectors fit the layouter's table.
pub open spec fn chip_fits(cfg: FieldConfig, lay: Layouter) -> bool {
    &&& cfg.advice0.kind == ColumnKind::Advice
    &&& cfg.advice1.kind == ColumnKind::Advice
    &&& cfg.advice0.index < lay.table.advice@.len()
    &&& cfg.advice1.index < lay.table.advice@.len()
    &&& cfg.advice0.index != cfg.advice1.index
    &&& cfg.constant.kind == ColumnKind::Fixed
    &&& cfg.constant.index < lay.table.fixed@.len()
    &&& cfg.instance.kind == ColumnKind::Instance
    &&& cfg.s_mul.index < lay.table.selectors@.len()
    &&& cfg.s_add.index < lay.table.selectors@.len()
}

/// The table kept its height, its column counts and its equality list.
pub open spec fn same_shape(prev: Layouter, cur: Layouter) -> bool {
    &&& cur.table.n == prev.table.n
    &&& cur.table.advice@.len() == prev.table.advice@.len()
    &&& cur.table.fixed@.len() == prev.table.fixed@.len()
    &&& cur.table.selectors@.len() == prev.table.selectors@.len()
    &&& cur.equality@ == prev.equality@
}

/// Both operands and both target columns may take part in copies.
pub open spec fn copies_enabled(cfg: FieldConfig, lay: Layouter, a: Number, b: Number) -> bool {
    &&& lay.equality@.contains(cfg.advice0)
    &&& lay.equality@.contains(cfg.advice1)
    &&& lay.equality@.contains(a.cell.column)
    &&& lay.equality@.contains(b.cell.column)
}

/// What `mul` and `add` do to the layouter on success: a two-row region at
/// the old cursor, the operands copied into the two advice columns on its
/// first row, the selector enabled there, the result on its second row, and
/// nothing else touched.
pub open spec fn binary_op_effect(
    prev: Layouter,
    cur: Layouter,
    cfg: FieldConfig,
    a: Number,
    b: Number,
    sel: int,
    out: Value,
    num: Number,
) -> bool {
    let r0 = prev.cursor as int;
    &&& cur.wf()
    &&& same_shape(prev, cur)
    &&& cur.cursor == prev.cursor + 2
    &&& cur.table.advice_at(cfg.advice0.index as int, r0) == a.value
    &&& cur.table.advice_at(cfg.advice1.index as int, r0) == b.value
    &&& cur.table.advice_at(cfg.advice0.index as int, r0 + 1) == out
    &&& forall|c: int, r: int|
        0 <= c < cur.table.advice@.len() && 0 <= r < cur.table.n && !(c == cfg.advice0.index && r
            == r0) && !(c == cfg.advice1.index && r == r0) && !(c == cfg.advice0.index && r == r0
            + 1) ==> cur.table.advice_at(c, r) == prev.table.advice_at(c, r)
    &&& cur.table.sel_at(sel, r0)
    &&& forall|s: int, r: int|
        0 <= s < cur.table.selectors@.len() && 0 <= r < cur.table.n && !(s == sel && r == r0)
            ==> cur.table.sel_at(s, r) == prev.table.sel_at(s, r)
    &&& forall|c: int, r: int|
        0 <= c < cur.table.fixed@.len() && 0 <= r < cur.table.n ==> cur.table.fixed_at(c, r)
            == prev.table.fixed_at(c, r)
    &&& cur.table.copies@ == prev.table.copies@.push(
        CopyConstraint { left: a.cell, right: Cell { column: cfg.advice0, row: prev.cursor } },
    ).push(CopyConstraint { left: b.cell, right: Cell { column: cfg.advice1, row: prev.cursor } })
    &&& cur.table.bindings@ == prev.table.bindings@
    &&& num.cell == (Cell { column: cfg.advice0, row: (prev.cursor + 1) as usize })
    &&& num.value == out
    &&& num.wf(cur)
}

/// The witness engine around one configuration.
pub struct FieldChip {
    pub config: FieldConfig,
}

impl FieldChip {
    pub fn new(config: FieldConfig) -> (r: FieldChip)
        ensures
            r.config == config,
    {
        FieldChip { config }
    }

    /// The configuration this chip was constructed with.
    pub fn config(&self) -> (r: &FieldConfig)
        ensures
            *r == self.config,
    {
        &self.config
    }


    /// Declares the chip's wiring: equality on the instance, both advice
    /// columns and the constant column, two fresh selectors, and the two
    /// gate identities `s_mul * (a0 * a1 - out)` and `s_add * (a0 + a1 -
    /// out)`, where `out` is `a0` read at the next row.
    pub fn configure(
        meta: &mut ConstraintSystem,
        advice0: Column,
        advice1: Column,
        instance: Column,
        constant: Column,
    ) -> (r: FieldConfig)
        requires
            !old(meta).frozen,
            advice0.kind == ColumnKind::Advice,
            old(meta).declared(advice0),
            advice1.kind == ColumnKind::Advice,
            old(meta).declared(advice1),
            advice0.index != advice1.index,
            instance.kind == ColumnKind::Instance,
            old(meta).declared(instance),
            constant.kind == ColumnKind::Fixed,
            old(meta).declared(constant),
            old(meta).num_selectors + 2 <= usize::MAX,
        ensures
            r == (FieldConfig {
                advice0,
                advice1,
                instance,
                constant,
                s_mul: Selector { index: old(meta).num_selectors },
                s_add: Selector { index: (old(meta).num_selectors + 1) as usize },
            }),
            final(meta).equality@ == old(meta).equality@ + seq![constant, instance, advice0, advice1],
            final(meta).gates@.len() == old(meta).gates@.len() + 2,
            forall|g: int|
                0 <= g < old(meta).gates@.len() ==> final(meta).gates@[g] == old(meta).gates@[g],
            final(meta).gates@[old(meta).gates@.len() as int].selector == (Selector {
                index: old(meta).num_selectors,
            }),
            final(meta).gates@[old(meta).gates@.len() as int].poly == mul_gate_poly(
                advice0.index,
                advice1.index,
            ),
            final(meta).gates@[old(meta).gates@.len() as int + 1].selector == (Selector {
                index: (old(meta).num_selectors + 1) as usize,
            }),
            final(meta).gates@[old(meta).gates@.len() as int + 1].poly == add_gate_poly(
                advice0.index,
                advice1.index,
            ),
            final(meta).num_advice == old(meta).num_advice,
            final(meta).num_instance == old(meta).num_instance,
            final(meta).num_fixed == old(meta).num_fixed,
            final(meta).num_selectors == old(meta).num_selectors + 2,
            final(meta).frozen == old(meta).frozen,
            old(meta).gates_wf() ==> final(meta).gates_wf(),
    {
        meta.enable_constant(constant);
        meta.enable_equality(instance);
        meta.enable_equality(advice0);
        meta.enable_equality(advice1);
        let s_mul = meta.selector();
        let s_add = meta.selector();
        let mul_poly = build_mul_poly(advice0.index, advice1.index);
        let add_poly = build_add_poly(advice0.index, advice1.index);
        proof {
            reveal_with_fuel(wf_expr, 4);
            assert(meta.equality@ =~= old(meta).equality@ + seq![
                constant,
                instance,
                advice0,
                advice1,
            ]);
        }
        meta.create_gate("mul", s_mul, mul_poly);
        meta.create_gate("add", s_add, add_poly);
        FieldConfig { advice0, advice1, instance, constant, s_mul, s_add }
    }

    /// Loads a private (possibly unknown) value into a fresh one-row
    /// region: an unconstrained fact.
    pub fn load_private(&self, lay: &mut Layouter, x: Value) -> (r: Result<
        Number,
        SynthesisError,
    >)
        requires
            old(lay).wf(),
            chip_fits(self.config, *old(lay)),
            x.wf(),
        ensures
            r is Ok <==> old(lay).cursor + 1 <= old(lay).table.n,
            r is Err ==> *final(lay) == *old(lay) && r == Result::<Number, SynthesisError>::Err(
                SynthesisError::RowOverflow,
            ),
            r matches Ok(num) ==> {
                let r0 = old(lay).cursor as int;
                &&& final(lay).wf()
                &&& same_shape(*old(lay), *final(lay))
                &&& final(lay).cursor == old(lay).cursor + 1
                &&& final(lay).table.advice_at(self.config.advice0.index as int, r0) == x
                &&& forall|c: int, rw: int|
                    0 <= c < final(lay).table.advice@.len() && 0 <= rw < final(lay).table.n && !(c
                        == self.config.advice0.index && rw == r0) ==> final(lay).table.advice_at(
                        c,
                        rw,
                    ) == old(lay).table.advice_at(c, rw)
                &&& forall|s: int, rw: int|
                    0 <= s < final(lay).table.selectors@.len() && 0 <= rw < final(lay).table.n
                        ==> final(lay).table.sel_at(s, rw) == old(lay).table.sel_at(s, rw)
                &&& forall|c: int, rw: int|
                    0 <= c < final(lay).table.fixed@.len() && 0 <= rw < final(lay).table.n
                        ==> final(lay).table.fixed_at(c, rw) == old(lay).table.fixed_at(c, rw)
                &&& final(lay).table.copies@ == old(lay).table.copies@
                &&& final(lay).table.bindings@ == old(lay).table.bindings@
                &&& num.cell == (Cell { column: self.config.advice0, row: old(lay).cursor })
                &&& num.value == x
                &&& num.wf(*final(lay))
            },
    {
        let region = match lay.open_region("load private", 1) {
            Result::Ok(reg) => reg,
            Result::Err(e) => {
                return Result::Err(e);
            },
        };
        lay.table.set_advice(self.config.advice0.index, region.start, x);
        proof {
            assert forall|s2: int, rw: int|
                0 <= s2 < lay.table.selectors@.len() && lay.cursor <= rw < lay.table.n implies !(
                #[trigger] lay.table.sel_at(s2, rw)) by {
                assert(lay.table.sel_at(s2, rw) == old(lay).table.sel_at(s2, rw));
                assert(!old(lay).table.sel_at(s2, rw));
            }
        }
        Result::Ok(Number { cell: Cell { column: self.config.advice0, row: region.start }, value: x })
    }

    /// Loads a circuit-baked constant: writes it into the fixed column,
    /// copies it into advice, and binds the two cells by a copy constraint.
    pub fn load_constant(&self, lay: &mut Layouter, c: Fp) -> (r: Result<Number, SynthesisError>)
        requires
            old(lay).wf(),
            chip_fits(self.config, *old(lay)),
            c.wf(),
        ensures
            r is Ok <==> (old(lay).equality@.contains(self.config.constant)
                && old(lay).equality@.contains(self.config.advice0) && old(lay).cursor + 1 <= old(
                lay,
            ).table.n),
            !(old(lay).equality@.contains(self.config.constant) && old(lay).equality@.contains(
                self.config.advice0,
            )) ==> r == Result::<Number, SynthesisError>::Err(SynthesisError::EqualityNotEnabled),
            r is Err && old(lay).equality@.contains(self.config.constant)
                && old(lay).equality@.contains(self.config.advice0) ==> r == Result::<
                Number,
                SynthesisError,
            >::Err(SynthesisError::RowOverflow),
            r is Err ==> *final(lay) == *old(lay),
            r matches Ok(num) ==> {
                let r0 = old(lay).cursor as int;
                &&& final(lay).wf()
                &&& same_shape(*old(lay), *final(lay))
                &&& final(lay).cursor == old(lay).cursor + 1
                &&& final(lay).table.advice_at(self.config.advice0.index as int, r0)
                    == Value::Known(c)
                &&& final(lay).table.fixed_at(self.config.constant.index as int, r0)
                    == Value::Known(c)
                &&& forall|cl: int, rw: int|
                    0 <= cl < final(lay).table.advice@.len() && 0 <= rw < final(lay).table.n && !(
                    cl == self.config.advice0.index && rw == r0) ==> final(lay).table.advice_at(
                        cl,
                        rw,
                    ) == old(lay).table.advice_at(cl, rw)
                &&& forall|cl: int, rw: int|
                    0 <= cl < final(lay).table.fixed@.len() && 0 <= rw < final(lay).table.n && !(cl
                        == self.config.constant.index && rw == r0) ==> final(lay).table.fixed_at(
                        cl,
                        rw,
                    ) == old(lay).table.fixed_at(cl, rw)
                &&& forall|s: int, rw: int|
                    0 <= s < final(lay).table.selectors@.len() && 0 <= rw < final(lay).table.n
                        ==> final(lay).table.sel_at(s, rw) == old(lay).table.sel_at(s, rw)
                &&& final(lay).table.copies@ == old(lay).table.copies@.push(
                    CopyConstraint {
                        left: Cell { column: self.config.constant, row: old(lay).cursor },
                        right: Cell { column: self.config.advice0, row: old(lay).cursor },
                    },
                )
                &&& final(lay).table.bindings@ == old(lay).table.bindings@
                &&& num.cell == (Cell { column: self.config.advice0, row: old(lay).cursor })
                &&& num.value == Value::Known(c)
                &&& num.wf(*final(lay))
            },
    {
        if !lay.is_eq_enabled(self.config.constant) || !lay.is_eq_enabled(self.config.advice0) {
            return Result::Err(SynthesisError::EqualityNotEnabled);
        }
        let region = match lay.open_region("load constant", 1) {
            Result::Ok(reg) => reg,
            Result::Err(e) => {
                return Result::Err(e);
            },
        };
        lay.table.set_fixed(self.config.constant.index, region.start, Value::Known(c));
        let ghost lay2 = *lay;
        lay.table.set_advice(self.config.advice0.index, region.start, Value::Known(c));
        let ghost lay3 = *lay;
        lay.table.push_copy(
            Cell { column: self.config.constant, row: region.start },
            Cell { column: self.config.advice0, row: region.start },
        );
        proof {
            let r0 = region.start as int;
            assert forall|cl: int, rw: int|
                0 <= cl < lay.table.advice@.len() && 0 <= rw < lay.table.n && !(cl
                    == self.config.advice0.index && rw == r0) implies lay.table.advice_at(cl, rw)
                == old(lay).table.advice_at(cl, rw) by {
                assert(lay.table.advice_at(cl, rw) == lay3.table.advice_at(cl, rw));
                assert(lay3.table.advice_at(cl, rw) == lay2.table.advice_at(cl, rw));
                assert(lay2.table.advice_at(cl, rw) == old(lay).table.advice_at(cl, rw));
            }
            assert forall|cl: int, rw: int|
                0 <= cl < lay.table.fixed@.len() && 0 <= rw < lay.table.n && !(cl
                    == self.config.constant.index && rw == r0) implies lay.table.fixed_at(cl, rw)
                == old(lay).table.fixed_at(cl, rw) by {
                assert(lay.table.fixed_at(cl, rw) == lay3.table.fixed_at(cl, rw));
                assert(lay3.table.fixed_at(cl, rw) == lay2.table.fixed_at(cl, rw));
                assert(lay2.table.fixed_at(cl, rw) == old(lay).table.fixed_at(cl, rw));
            }
            assert forall|s2: int, rw: int|
                0 <= s2 < lay.table.selectors@.len() && 0 <= rw < lay.table.n implies
                lay.table.sel_at(s2, rw) == old(lay).table.sel_at(s2, rw) by {
                assert(lay.table.sel_at(s2, rw) == lay3.table.sel_at(s2, rw));
                assert(lay3.table.sel_at(s2, rw) == lay2.table.sel_at(s2, rw));
                assert(lay2.table.sel_at(s2, rw) == old(lay).table.sel_at(s2, rw));
            }
            assert(lay.table.advice_at(self.config.advice0.index as int, r0) == Value::Known(c));
            assert(lay.table.fixed_at(self.config.constant.index as int, r0) == Value::Known(c));
        }
        proof {
            assert forall|s2: int, rw: int|
                0 <= s2 < lay.table.selectors@.len() && lay.cursor <= rw < lay.table.n implies !(
                #[trigger] lay.table.sel_at(s2, rw)) by {
                assert(lay.table.sel_at(s2, rw) == old(lay).table.sel_at(s2, rw));
                assert(!old(lay).table.sel_at(s2, rw));
            }
        }
        Result::Ok(
            Number {
                cell: Cell { column: self.config.advice0, row: region.start },
                value: Value::Known(c),
            },
        )
    }

    /// Multiplies two assigned numbers in a fresh two-row region.
    pub fn mul(&self, lay: &mut Layouter, a: &Number, b: &Number) -> (r: Result<
        Number,
        SynthesisError,
    >)
        requires
            old(lay).wf(),
            chip_fits(self.config, *old(lay)),
            a.wf(*old(lay)),
            b.wf(*old(lay)),
        ensures
            r is Ok <==> (copies_enabled(self.config, *old(lay), *a, *b) && old(lay).cursor + 2
                <= old(lay).table.n),
            !copies_enabled(self.config, *old(lay), *a, *b) ==> r == Result::<
                Number,
                SynthesisError,
            >::Err(SynthesisError::EqualityNotEnabled),
            r is Err && copies_enabled(self.config, *old(lay), *a, *b) ==> r == Result::<
                Number,
                SynthesisError,
            >::Err(SynthesisError::RowOverflow),
            r is Err ==> *final(lay) == *old(lay),
            r matches Ok(num) ==> binary_op_effect(
                *old(lay),
                *final(lay),
                self.config,
                *a,
                *b,
                self.config.s_mul.index as int,
                v_mul(a.value, b.value),
                num,
            ),
    {
        self.binary_op(lay, a, b, true)
    }

    /// Adds two assigned numbers in a fresh two-row region.
    pub fn add(&self, lay: &mut Layouter, a: &Number, b: &Number) -> (r: Result<
        Number,
        SynthesisError,
    >)
        requires
            old(lay).wf(),
            chip_fits(self.config, *old(lay)),
            a.wf(*old(lay)),
            b.wf(*old(lay)),
        ensures
            r is Ok <==> (copies_enabled(self.config, *old(lay), *a, *b) && old(lay).cursor + 2
                <= old(lay).table.n),
            !copies_enabled(self.config, *old(lay), *a, *b) ==> r == Result::<
                Number,
                SynthesisError,
            >::Err(SynthesisError::EqualityNotEnabled),
            r is Err && copies_enabled(self.config, *old(lay), *a, *b) ==> r == Result::<
                Number,
                SynthesisError,
            >::Err(SynthesisError::RowOverflow),
            r is Err ==> *final(lay) == *old(lay),
            r matches Ok(num) ==> binary_op_effect(
                *old(lay),
                *final(lay),
                self.config,
                *a,
                *b,
                self.config.s_add.index as int,
                v_add(a.value, b.value),
                num,
            ),
    {
        self.binary_op(lay, a, b, false)
    }

    /// Binds an assigned number to one row of the instance column: public
    /// exposure by equality constraint, never by value copy.
    pub fn expose_public(&self, lay: &mut Layouter, num: &Number, row: usize) -> (r: Result<
        (),
        SynthesisError,
    >)
        requires
            old(lay).wf(),
            chip_fits(self.config, *old(lay)),
            num.wf(*old(lay)),
        ensures
            r is Ok <==> (old(lay).equality@.contains(self.config.instance)
                && old(lay).equality@.contains(num.cell.column) && row < old(lay).table.n),
            !(old(lay).equality@.contains(self.config.instance) && old(lay).equality@.contains(
                num.cell.column,
            )) ==> r == Result::<(), SynthesisError>::Err(SynthesisError::EqualityNotEnabled),
            r is Err && old(lay).equality@.contains(self.config.instance)
                && old(lay).equality@.contains(num.cell.column) ==> r == Result::<
                (),
                SynthesisError,
            >::Err(SynthesisError::RowOverflow),
            r is Err ==> *final(lay) == *old(lay),
            r is Ok ==> {
                &&& final(lay).wf()
                &&& same_shape(*old(lay), *final(lay))
                &&& final(lay).cursor == old(lay).cursor
                &&& final(lay).table.advice == old(lay).table.advice
                &&& final(lay).table.fixed == old(lay).table.fixed
                &&& final(lay).table.selectors == old(lay).table.selectors
                &&& final(lay).table.copies@ == old(lay).table.copies@
                &&& final(lay).table.bindings@ == old(lay).table.bindings@.push(
                    crate::table::InstanceBinding {
                        cell: num.cell,
                        column: self.config.instance.index,
                        row,
                    },
                )
            },
    {
        if !lay.is_eq_enabled(self.config.instance) || !lay.is_eq_enabled(num.cell.column) {
            return Result::Err(SynthesisError::EqualityNotEnabled);
        }
        if row >= lay.table.n {
            return Result::Err(SynthesisError::RowOverflow);
        }
        lay.table.push_binding(num.cell, self.config.instance.index, row);
        proof {
            assert forall|s2: int, rw: int|
                0 <= s2 < lay.table.selectors@.len() && lay.cursor <= rw < lay.table.n implies !(
                #[trigger] lay.table.sel_at(s2, rw)) by {
                assert(lay.table.sel_at(s2, rw) == old(lay).table.sel_at(s2, rw));
                assert(!old(lay).table.sel_at(s2, rw));
            }
        }
        Result::Ok(())
    }

    /// The shared shape of `mul` and `add`.
    fn binary_op(&self, lay: &mut Layouter, a: &Number, b: &Number, multiply: bool) -> (r: Result<
        Number,
        SynthesisError,
    >)
        requires
            old(lay).wf(),
            chip_fits(self.config, *old(lay)),
            a.wf(*old(lay)),
            b.wf(*old(lay)),
        ensures
            r is Ok <==> (copies_enabled(self.config, *old(lay), *a, *b) && old(lay).cursor + 2
                <= old(lay).table.n),
            !copies_enabled(self.config, *old(lay), *a, *b) ==> r == Result::<
                Number,
                SynthesisError,
            >::Err(SynthesisError::EqualityNotEnabled),
            r is Err && copies_enabled(self.config, *old(lay), *a, *b) ==> r == Result::<
                Number,
                SynthesisError,
            >::Err(SynthesisError::RowOverflow),
            r is Err ==> *final(lay) == *old(lay),
            r matches Ok(num) ==> binary_op_effect(
                *old(lay),
                *final(lay),
                self.config,
                *a,
                *b,
                if multiply {
                    self.config.s_mul.index as int
                } else {
                    self.config.s_add.index as int
                },
                if multiply {
                    v_mul(a.value, b.value)
                } else {
                    v_add(a.value, b.value)
                },
                num,
            ),
    {
        if !lay.is_eq_enabled(self.config.advice0) || !lay.is_eq_enabled(self.config.advice1)
            || !lay.is_eq_enabled(a.cell.column) || !lay.is_eq_enabled(b.cell.column) {
            return Result::Err(SynthesisError::EqualityNotEnabled);
        }
        let region = match lay.open_region(
            if multiply {
                "mul"
            } else {
                "add"
            },
            2,
        ) {
            Result::Ok(reg) => reg,
            Result::Err(e) => {
                return Result::Err(e);
            },
        };
        let r0 = region.start;
        let sel = if multiply {
            self.config.s_mul
        } else {
            self.config.s_add
        };
        proof {
            assert forall|s2: int|
                0 <= s2 < lay.table.selectors@.len() implies !lay.table.sel_at(s2, r0 as int) by {
                assert(!old(lay).table.sel_at(s2, r0 as int));
            }
        }
        let enabled = lay.table.enable_selector(sel.index, r0);
        if enabled.is_err() {
            // Unreachable: a fresh region starts on rows with no selector
            // enabled, which the precondition of this branch contradicts.
            return Result::Err(SynthesisError::SelectorClash);
        }
        let ghost lay2 = *lay;
        lay.table.set_advice(self.config.advice0.index, r0, a.value);
        let ghost lay3 = *lay;
        lay.table.push_copy(a.cell, Cell { column: self.config.advice0, row: r0 });
        let ghost lay4 = *lay;
        lay.table.set_advice(self.config.advice1.index, r0, b.value);
        let ghost lay5 = *lay;
        lay.table.push_copy(b.cell, Cell { column: self.config.advice1, row: r0 });
        let ghost lay6 = *lay;
        let out = if multiply {
            a.value.mul(b.value)
        } else {
            a.value.add(b.value)
        };
        lay.table.set_advice(self.config.advice0.index, r0 + 1, out);
        proof {
            let a0 = self.config.advice0.index as int;
            let a1 = self.config.advice1.index as int;
            assert forall|cl: int, rw: int|
                0 <= cl < lay.table.advice@.len() && 0 <= rw < lay.table.n && !(cl == a0 && rw
                    == r0) && !(cl == a1 && rw == r0) && !(cl == a0 && rw == r0 + 1) implies
                lay.table.advice_at(cl, rw) == old(lay).table.advice_at(cl, rw) by {
                assert(lay.table.advice_at(cl, rw) == lay6.table.advice_at(cl, rw));
                assert(lay6.table.advice_at(cl, rw) == lay5.table.advice_at(cl, rw));
                assert(lay5.table.advice_at(cl, rw) == lay4.table.advice_at(cl, rw));
                assert(lay4.table.advice_at(cl, rw) == lay3.table.advice_at(cl, rw));
                assert(lay3.table.advice_at(cl, rw) == lay2.table.advice_at(cl, rw));
                assert(lay2.table.advice_at(cl, rw) == old(lay).table.advice_at(cl, rw));
            }
            assert(lay.table.advice_at(a0, r0 as int) == lay6.table.advice_at(a0, r0 as int));
            assert(lay6.table.advice_at(a0, r0 as int) == lay5.table.advice_at(a0, r0 as int));
            assert(lay5.table.advice_at(a0, r0 as int) == lay4.table.advice_at(a0, r0 as int));
            assert(lay4.table.advice_at(a0, r0 as int) == lay3.table.advice_at(a0, r0 as int));
            assert(lay3.table.advice_at(a0, r0 as int) == a.value);
            assert(lay.table.advice_at(a1, r0 as int) == lay6.table.advice_at(a1, r0 as int));
            assert(lay6.table.advice_at(a1, r0 as int) == lay5.table.advice_at(a1, r0 as int));
            assert(lay5.table.advice_at(a1, r0 as int) == b.value);
            assert(lay.table.advice_at(a0, r0 as int) == a.value);
            assert(lay.table.advice_at(a1, r0 as int) == b.value);
            assert forall|cl: int, rw: int|
                0 <= cl < lay.table.fixed@.len() && 0 <= rw < lay.table.n implies
                lay.table.fixed_at(cl, rw) == old(lay).table.fixed_at(cl, rw) by {
                assert(lay.table.fixed_at(cl, rw) == lay6.table.fixed_at(cl, rw));
                assert(lay6.table.fixed_at(cl, rw) == lay5.table.fixed_at(cl, rw));
                assert(lay5.table.fixed_at(cl, rw) == lay4.table.fixed_at(cl, rw));
                assert(lay4.table.fixed_at(cl, rw) == lay3.table.fixed_at(cl, rw));
                assert(lay3.table.fixed_at(cl, rw) == lay2.table.fixed_at(cl, rw));
                assert(lay2.table.fixed_at(cl, rw) == old(lay).table.fixed_at(cl, rw));
            }
            assert forall|s2: int, rw: int|
                0 <= s2 < lay.table.selectors@.len() && 0 <= rw < lay.table.n && !(s2
                    == sel.index && rw == r0) implies lay.table.sel_at(s2, rw) == old(
                lay,
            ).table.sel_at(s2, rw) by {
                assert(lay.table.sel_at(s2, rw) == lay6.table.sel_at(s2, rw));
                assert(lay6.table.sel_at(s2, rw) == lay5.table.sel_at(s2, rw));
                assert(lay5.table.sel_at(s2, rw) == lay4.table.sel_at(s2, rw));
                assert(lay4.table.sel_at(s2, rw) == lay3.table.sel_at(s2, rw));
                assert(lay3.table.sel_at(s2, rw) == lay2.table.sel_at(s2, rw));
                assert(lay2.table.sel_at(s2, rw) == old(lay).table.sel_at(s2, rw));
            }
            assert(lay.table.sel_at(sel.index as int, r0 as int));
            assert(lay.table.copies@ == old(lay).table.copies@.push(
                CopyConstraint {
                    left: a.cell,
                    right: Cell { column: self.config.advice0, row: r0 },
                },
            ).push(
                CopyConstraint {
                    left: b.cell,
                    right: Cell { column: self.config.advice1, row: r0 },
                },
            ));
            assert(lay.table.bindings@ == old(lay).table.bindings@);
            assert forall|s2: int, rw: int|
                0 <= s2 < lay.table.selectors@.len() && lay.cursor <= rw < lay.table.n implies !(
                #[trigger] lay.table.sel_at(s2, rw)) by {
                assert(!(s2 == sel.index && rw == r0));
                assert(lay.table.sel_at(s2, rw) == old(lay).table.sel_at(s2, rw));
                assert(!old(lay).table.sel_at(s2, rw));
            }
        }
        Result::Ok(Number { cell: Cell { column: self.config.advice0, row: r0 + 1 }, value: out })
    }
}

} // verus!
