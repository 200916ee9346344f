//! A circuit under construction: one column of committed field elements, the
//! gates and equalities laid over it, and a lookup table for range checks.
//!
//! The circuit itself is kept by `halo2_base`. This module states what each of
//! its operations does to the column and to the satisfiability of the circuit,
//! and hands out the committed cells as plain offsets into the column.

use crate::relation::{field_add, field_mul, modulus, OPERAND_BITS};
use halo2_base::gates::circuit::builder::BaseCircuitBuilder;
use halo2_base::gates::{GateInstructions, RangeChip, RangeInstructions};
use halo2_base::halo2_proofs::dev::MockProver;
use halo2_base::halo2_proofs::halo2curves::bn256::Fr;
use halo2_base::utils::decompose_fe_to_u64_limbs;
use vstd::arithmetic::power2::pow2;
use vstd::prelude::*;

verus! {

/// The smallest number of rows, as a power of two, that a circuit may have.
pub const MIN_ROWS_EXPONENT: usize = 6;

/// The largest number of rows, as a power of two, that a circuit may have.
pub const MAX_ROWS_EXPONENT: usize = 28;

/// The rows at the end of every column that are left to the proving system
/// and hold no cell of the circuit.
pub const UNUSABLE_ROWS: usize = 9;

/// A circuit over the scalar field of BN254, with a lookup table for range
/// checks.
///
/// It holds a `halo2_base` circuit builder in the stage that records
/// constraints, and the range chip made from it. Verus sees neither: the
/// functions `advice`, `satisfied`, `lookup_bits` and `rows_exponent` say what
/// a circuit holds, and the private functions of this module that reach into
/// it are trusted to do what their contracts say. Only `build` makes a
/// circuit, and only they change one: every cell holds a plain field element
/// and belongs to the main context, which is what the calls into `halo2_base`
/// rely on besides their stated bounds.
#[verifier::external_body]
pub struct RangeCircuit {
    builder: BaseCircuitBuilder<Fr>,
    range: RangeChip<Fr>,
}

/// The values committed so far, in the order of commitment: the advice column
/// of the builder's main context, each cell as the canonical representative of
/// its field element.
pub uninterp spec fn advice(c: RangeCircuit) -> Seq<int>;

/// Whether the committed values meet every constraint recorded so far: every
/// enabled gate, every equality between cells or with a constant, and every
/// lookup into the range table.
pub uninterp spec fn satisfied(c: RangeCircuit) -> bool;

/// The number of bits of the range table that the circuit was made with: the
/// table holds the values `0 .. 2^lookup_bits`.
pub uninterp spec fn lookup_bits(c: RangeCircuit) -> nat;

/// The number of rows that the circuit was made with, as a power of two.
pub uninterp spec fn rows_exponent(c: RangeCircuit) -> nat;

/// The cells that a range check of `value` to `range_bits` bits commits, with a
/// table of `lookup_bits` bits: the limbs of the value and the partial sums
/// that put them together again.
pub uninterp spec fn range_check_cells(value: int, range_bits: nat, lookup_bits: nat) -> Seq<int>;

/// What a circuit holds, as mathematical values.
pub struct CircuitModel {
    /// The committed values, in the order of commitment.
    pub cells: Seq<int>,
    /// Whether the committed values meet every constraint recorded so far.
    pub satisfied: bool,
    /// The number of bits of the range table.
    pub lookup_bits: nat,
    /// The number of rows, as a power of two.
    pub rows_exponent: nat,
}

impl View for RangeCircuit {
    type V = CircuitModel;

    open spec fn view(&self) -> CircuitModel {
        CircuitModel {
            cells: advice(*self),
            satisfied: satisfied(*self),
            lookup_bits: lookup_bits(*self),
            rows_exponent: rows_exponent(*self),
        }
    }
}

/// A committed cell: its offset in the column of the circuit that made it.
#[derive(Clone, Copy, Debug, PartialEq, Eq)]
pub struct Witness {
    pub offset: usize,
}

/// The rows of a column that hold cells of the circuit, for a circuit of
/// `2^rows_exponent` rows.
pub open spec fn usable_rows(rows_exponent: nat) -> int {
    pow2(rows_exponent) - UNUSABLE_ROWS
}

/// Whether `cells` cells can be laid out in columns of `rows` usable rows, in
/// as many columns as `cells / rows`, rounded up. A gate is never split: where
/// one would cross the end of a column, up to three rows stay empty.
pub open spec fn fits_columns(cells: int, rows: int) -> bool {
    &&& rows > 3
    &&& cells <= ((cells + rows - 1) / rows) * (rows - 3)
}

/// The value that eight limbs of 32 bits stand for, the lowest limb first.
pub open spec fn limbs_value(limbs: Seq<u64>) -> int {
    limbs[0] + limbs[1] * 0x1_0000_0000 + limbs[2] * 0x1_0000_0000_0000_0000 + limbs[3]
        * 0x1_0000_0000_0000_0000_0000_0000 + limbs[4] * 0x1_0000_0000_0000_0000_0000_0000_0000_0000
        + limbs[5] * 0x1_0000_0000_0000_0000_0000_0000_0000_0000_0000_0000 + limbs[6]
        * 0x1_0000_0000_0000_0000_0000_0000_0000_0000_0000_0000_0000_0000 + limbs[7]
        * 0x1_0000_0000_0000_0000_0000_0000_0000_0000_0000_0000_0000_0000_0000_0000
}

/// Makes the builder with `BaseCircuitBuilder::new`, `use_k` and
/// `use_lookup_bits`, starts its main context and makes its range chip with
/// `range_chip`.
///
/// Claimed: the new circuit holds no cell and no constraint, and keeps the two
/// numbers it was made with. `RangeChip::new` divides by the table's bits, and
/// the table is later asserted to have at most 28 bits and no more values than
/// the circuit has usable rows: the bounds see to all three.
#[verifier::external_body]
fn build(k: usize, table_bits: usize) -> (c: RangeCircuit)
    requires
        MIN_ROWS_EXPONENT <= k <= MAX_ROWS_EXPONENT,
        1 <= table_bits < k,
    ensures
        advice(c) == Seq::<int>::empty(),
        satisfied(c),
        lookup_bits(c) == table_bits,
        rows_exponent(c) == k,
{
    let mut builder = BaseCircuitBuilder::new(false).use_k(k).use_lookup_bits(table_bits);
    builder.main(0);
    let range = builder.range_chip();
    RangeCircuit { builder, range }
}

/// Reads the length of the advice column of the main context.
///
/// Claimed: it is the number of committed values.
#[verifier::external_body]
fn cell_count(c: &RangeCircuit) -> (n: usize)
    ensures
        n == advice(*c).len(),
{
    c.builder.core().phase_manager[0].threads[0].advice.len()
}

/// Calls `Context::load_witness` with the field element of `value`.
///
/// Claimed: one cell with that value is appended, and no constraint is
/// recorded, so the circuit is satisfied exactly if it was.
#[verifier::external_body]
fn assign(c: &mut RangeCircuit, value: u64)
    ensures
        advice(*final(c)) == advice(*old(c)).push(value as int),
        satisfied(*final(c)) == satisfied(*old(c)),
        lookup_bits(*final(c)) == lookup_bits(*old(c)),
        rows_exponent(*final(c)) == rows_exponent(*old(c)),
{
    c.builder.main(0).load_witness(Fr::from(value));
}

/// Calls `GateInstructions::mul` on the cells at `a` and `b`, fetched with
/// `Context::get`, which asserts that they lie in the column.
///
/// Claimed: the four cells of one gate are appended, zero, both factors and
/// their product in the field. These values meet that gate and the copies of
/// the two factors, so the circuit is satisfied exactly if it was.
#[verifier::external_body]
fn gate_mul(c: &mut RangeCircuit, a: usize, b: usize)
    requires
        a < advice(*old(c)).len(),
        b < advice(*old(c)).len(),
    ensures
        advice(*final(c)) == advice(*old(c)) + seq![
            0,
            advice(*old(c))[a as int],
            advice(*old(c))[b as int],
            field_mul(modulus(), advice(*old(c))[a as int], advice(*old(c))[b as int]),
        ],
        satisfied(*final(c)) == satisfied(*old(c)),
        lookup_bits(*final(c)) == lookup_bits(*old(c)),
        rows_exponent(*final(c)) == rows_exponent(*old(c)),
{
    let ctx = c.builder.main(0);
    let (a, b) = (ctx.get(a as isize), ctx.get(b as isize));
    c.range.gate.mul(ctx, a, b);
}

/// Calls `GateInstructions::add` on the cells at `a` and `b`, fetched with
/// `Context::get`, which asserts that they lie in the column.
///
/// Claimed: the four cells of one gate are appended, both terms, one and the
/// sum in the field. These values meet that gate and the copies of the two
/// terms, so the circuit is satisfied exactly if it was.
#[verifier::external_body]
fn gate_add(c: &mut RangeCircuit, a: usize, b: usize)
    requires
        a < advice(*old(c)).len(),
        b < advice(*old(c)).len(),
    ensures
        advice(*final(c)) == advice(*old(c)) + seq![
            advice(*old(c))[a as int],
            advice(*old(c))[b as int],
            1,
            field_add(modulus(), advice(*old(c))[a as int], advice(*old(c))[b as int]),
        ],
        satisfied(*final(c)) == satisfied(*old(c)),
        lookup_bits(*final(c)) == lookup_bits(*old(c)),
        rows_exponent(*final(c)) == rows_exponent(*old(c)),
{
    let ctx = c.builder.main(0);
    let (a, b) = (ctx.get(a as isize), ctx.get(b as isize));
    c.range.gate.add(ctx, a, b);
}

/// Calls `Context::constrain_equal` on the cells at `a` and `b`, fetched with
/// `Context::get`, which asserts that they lie in the column.
///
/// Claimed: no cell is appended, and the circuit is satisfied from now on
/// exactly if it was and the two cells hold the same value.
#[verifier::external_body]
fn link_equal(c: &mut RangeCircuit, a: usize, b: usize)
    requires
        a < advice(*old(c)).len(),
        b < advice(*old(c)).len(),
    ensures
        advice(*final(c)) == advice(*old(c)),
        satisfied(*final(c)) == (satisfied(*old(c)) && advice(*old(c))[a as int] == advice(
            *old(c),
        )[b as int]),
        lookup_bits(*final(c)) == lookup_bits(*old(c)),
        rows_exponent(*final(c)) == rows_exponent(*old(c)),
{
    let ctx = c.builder.main(0);
    let (a, b) = (ctx.get(a as isize), ctx.get(b as isize));
    ctx.constrain_equal(&a, &b);
}

/// Calls `RangeInstructions::range_check` on the cell at `a`, fetched with
/// `Context::get`, which asserts that it lies in the column.
///
/// Claimed: the cells it appends depend on the value, the width and the table
/// alone, and the circuit is satisfied from now on exactly if it was and the
/// value is below `2^range_bits`. The limbs are cut from the low bits of the
/// value and looked up in the table, their sum is constrained to equal the
/// value, and the highest limb is held to the bits that are left for it: all
/// of that is met exactly by a value that small. A width of at most 32 bits
/// has no more limbs than the chip holds bases for.
#[verifier::external_body]
fn check_range(c: &mut RangeCircuit, a: usize, range_bits: usize)
    requires
        a < advice(*old(c)).len(),
        range_bits <= OPERAND_BITS,
    ensures
        advice(*final(c)) == advice(*old(c)) + range_check_cells(
            advice(*old(c))[a as int],
            range_bits as nat,
            lookup_bits(*old(c)),
        ),
        satisfied(*final(c)) == (satisfied(*old(c)) && advice(*old(c))[a as int] < pow2(
            range_bits as nat,
        )),
        lookup_bits(*final(c)) == lookup_bits(*old(c)),
        rows_exponent(*final(c)) == rows_exponent(*old(c)),
{
    let ctx = c.builder.main(0);
    let a = ctx.get(a as isize);
    c.range.range_check(ctx, a, range_bits);
}

/// Calls `decompose_fe_to_u64_limbs` on the value of the cell at `a`, fetched
/// with `Context::get`, which asserts that it lies in the column, for eight
/// limbs of 32 bits.
///
/// Claimed: the eight limbs are below `2^32` and stand for the cell's value.
#[verifier::external_body]
fn cell_limbs(c: &RangeCircuit, a: usize) -> (limbs: Vec<u64>)
    requires
        a < advice(*c).len(),
    ensures
        limbs@.len() == 8,
        forall|i: int| 0 <= i < 8 ==> limbs@[i] < 0x1_0000_0000,
        limbs_value(limbs@) == advice(*c)[a as int],
{
    let cell = c.builder.core().phase_manager[0].threads[0].get(a as isize);
    decompose_fe_to_u64_limbs(cell.value(), 8, 32)
}

/// Copies the builder with `deep_clone`, lays the copy out with
/// `calculate_params` and checks it with `MockProver::run` and `verify`.
///
/// Claimed: the mock prover accepts exactly if the committed values meet every
/// recorded constraint. The circuit itself is not touched. The layout panics
/// where it runs out of columns or of rows: `calculate_params` counts one
/// column for every `rows` cells, while a column may take three cells fewer,
/// which is what `fits_columns` allows for; the lookups get columns by their
/// number; and the constants of a circuit made here, at most 33 with range
/// checks of at most 32 bits, fit the usable rows of the smallest circuit.
#[verifier::external_body]
fn mock_verify(c: &RangeCircuit, unusable_rows: usize) -> (accepted: bool)
    requires
        unusable_rows == UNUSABLE_ROWS,
        fits_columns(advice(*c).len() as int, usable_rows(rows_exponent(*c))),
    ensures
        accepted == satisfied(*c),
{
    let mut builder = c.builder.deep_clone();
    builder.calculate_params(Some(unusable_rows));
    let k = builder.config_params.k as u32;
    MockProver::run(k, &builder, vec![]).unwrap().verify().is_ok()
}

impl RangeCircuit {
    /// Whether `w` is a cell of this circuit.
    pub open spec fn holds(&self, w: Witness) -> bool {
        w.offset < self@.cells.len()
    }

    /// The value committed at `w`.
    pub open spec fn value_at(&self, w: Witness) -> int {
        self@.cells[w.offset as int]
    }

    /// Makes an empty circuit of `2^rows_exponent` rows with a range table of
    /// `lookup_bits` bits, or `None` where the table would not fit in the rows
    /// or the rows are outside of what the field supports.
    pub fn new(rows_exponent: usize, lookup_bits: usize) -> (made: Option<RangeCircuit>)
        ensures
            made.is_some() <==> MIN_ROWS_EXPONENT <= rows_exponent <= MAX_ROWS_EXPONENT && 1
                <= lookup_bits < rows_exponent,
            made matches Some(c) ==> c@ == (CircuitModel {
                cells: Seq::<int>::empty(),
                satisfied: true,
                lookup_bits: lookup_bits as nat,
                rows_exponent: rows_exponent as nat,
            }),
    {
        if MIN_ROWS_EXPONENT <= rows_exponent && rows_exponent <= MAX_ROWS_EXPONENT && 1
            <= lookup_bits && lookup_bits < rows_exponent {
            Some(build(rows_exponent, lookup_bits))
        } else {
            None
        }
    }

    /// The number of committed cells.
    pub fn len(&self) -> (n: usize)
        ensures
            n == self@.cells.len(),
    {
        cell_count(self)
    }

    /// Commits `value` as a new cell, under no constraint.
    pub fn load_witness(&mut self, value: u64) -> (w: Witness)
        ensures
            final(self)@ == (CircuitModel {
                cells: old(self)@.cells.push(value as int),
                ..old(self)@
            }),
            w.offset == old(self)@.cells.len(),
    {
        assign(self, value);
        Witness { offset: cell_count(self) - 1 }
    }

    /// Commits the product of `a` and `b` in the field, constrained to be that
    /// product by a gate, whose other three cells come before it.
    pub fn mul(&mut self, a: Witness, b: Witness) -> (w: Witness)
        requires
            old(self).holds(a),
            old(self).holds(b),
        ensures
            final(self)@ == (CircuitModel {
                cells: old(self)@.cells + seq![
                    0,
                    old(self).value_at(a),
                    old(self).value_at(b),
                    field_mul(modulus(), old(self).value_at(a), old(self).value_at(b)),
                ],
                ..old(self)@
            }),
            w.offset == old(self)@.cells.len() + 3,
    {
        gate_mul(self, a.offset, b.offset);
        Witness { offset: cell_count(self) - 1 }
    }

    /// Commits the sum of `a` and `b` in the field, constrained to be that sum
    /// by a gate, whose other three cells come before it.
    pub fn add(&mut self, a: Witness, b: Witness) -> (w: Witness)
        requires
            old(self).holds(a),
            old(self).holds(b),
        ensures
            final(self)@ == (CircuitModel {
                cells: old(self)@.cells + seq![
                    old(self).value_at(a),
                    old(self).value_at(b),
                    1,
                    field_add(modulus(), old(self).value_at(a), old(self).value_at(b)),
                ],
                ..old(self)@
            }),
            w.offset == old(self)@.cells.len() + 3,
    {
        gate_add(self, a.offset, b.offset);
        Witness { offset: cell_count(self) - 1 }
    }

    /// Constrains `a` and `b` to hold the same value.
    pub fn constrain_equal(&mut self, a: Witness, b: Witness)
        requires
            old(self).holds(a),
            old(self).holds(b),
        ensures
            final(self)@ == (CircuitModel {
                satisfied: old(self)@.satisfied && old(self).value_at(a) == old(self).value_at(b),
                ..old(self)@
            }),
    {
        link_equal(self, a.offset, b.offset);
    }

    /// Constrains `a` to hold a value below `2^range_bits`.
    pub fn range_check(&mut self, a: Witness, range_bits: usize)
        requires
            old(self).holds(a),
            range_bits <= OPERAND_BITS,
        ensures
            final(self)@ == (CircuitModel {
                cells: old(self)@.cells + range_check_cells(
                    old(self).value_at(a),
                    range_bits as nat,
                    old(self)@.lookup_bits,
                ),
                satisfied: old(self)@.satisfied && old(self).value_at(a) < pow2(range_bits as nat),
                ..old(self)@
            }),
    {
        check_range(self, a.offset, range_bits);
    }

    /// The value committed at `w`, where it fits in 64 bits.
    pub fn value(&self, w: Witness) -> (v: Option<u64>)
        requires
            self.holds(w),
        ensures
            v == (if self.value_at(w) <= u64::MAX {
                Some(self.value_at(w) as u64)
            } else {
                None
            }),
    {
        let limbs = cell_limbs(self, w.offset);
        let high: bool = limbs[2] != 0 || limbs[3] != 0 || limbs[4] != 0 || limbs[5] != 0
            || limbs[6] != 0 || limbs[7] != 0;
        if high {
            None
        } else {
            Some(limbs[0] + limbs[1] * 0x1_0000_0000)
        }
    }

    /// Whether the committed values meet every constraint recorded so far, as
    /// a mock prover finds it.
    pub fn is_satisfied(&self) -> (accepted: bool)
        requires
            fits_columns(self@.cells.len() as int, usable_rows(self@.rows_exponent)),
        ensures
            accepted == self@.satisfied,
    {
        mock_verify(self, UNUSABLE_ROWS)
    }
}

} // verus!
