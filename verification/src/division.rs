//! The division gadget: commits a quotient and a remainder, and constrains
//! them to put the dividend together again.

use crate::circuit::{range_check_cells, CircuitModel, RangeCircuit, Witness};
use crate::relation::{
    is_decomposition, lemma_constraints_are_integer_identity, lemma_floor_division_is_decomposition,
    lemma_product_is_exact, modulus, OPERAND_BITS,
};
use vstd::arithmetic::power2::lemma2_to64;
use vstd::prelude::*;

verus! {

/// Why a division was not put into the circuit.
#[derive(Clone, Copy, Debug, PartialEq, Eq)]
pub enum DivisionError {
    /// The divisor is zero, so there is no quotient to commit.
    DivisionByZero,
}

/// Proves divisions of unsigned 32-bit integers inside the circuit it holds.
pub struct IntegerDivisionChip {
    /// The circuit that the divisions are committed to and constrained in.
    pub range: RangeCircuit,
}

/// The twelve cells that one division commits before its range checks: the
/// quotient, the remainder and the divisor; the four cells of one gate that
/// multiplies quotient and divisor; the four cells of one gate that adds the
/// remainder to the product; and the dividend.
pub open spec fn division_cells(quo: int, rem: int, divisor: int, dividend: int) -> Seq<int> {
    seq![
        quo,
        rem,
        divisor,
        0,
        quo,
        divisor,
        quo * divisor,
        quo * divisor,
        rem,
        1,
        quo * divisor + rem,
        dividend,
    ]
}

/// All cells that one division commits, with a range table of `lookup_bits`
/// bits: those of `division_cells`, then those of the range check of the
/// quotient, then those of the range check of the remainder.
pub open spec fn committed_cells(
    quo: int,
    rem: int,
    divisor: int,
    dividend: int,
    lookup_bits: nat,
) -> Seq<int> {
    division_cells(quo, rem, divisor, dividend) + range_check_cells(
        quo,
        OPERAND_BITS as nat,
        lookup_bits,
    ) + range_check_cells(rem, OPERAND_BITS as nat, lookup_bits)
}

impl IntegerDivisionChip {
    /// Whether `after` is this chip with the division of `x` by `y` put into
    /// its circuit, and `quo` the cell of the quotient: the cells of the
    /// division are appended, with the quotient and remainder of integer
    /// division as witnesses, and the circuit is satisfied exactly if it was.
    pub open spec fn divided_into(self, after: Self, x: u32, y: u32, quo: Witness) -> bool {
        &&& after.range@ == (CircuitModel {
            cells: self.range@.cells + committed_cells(
                x as int / y as int,
                x as int % y as int,
                y as int,
                x as int,
                self.range@.lookup_bits,
            ),
            ..self.range@
        })
        &&& quo.offset == self.range@.cells.len()
        &&& after.range.holds(quo)
        &&& after.range.value_at(quo) == x as int / y as int
    }

    /// Makes a chip that works in `range`.
    pub fn new(range: RangeCircuit) -> (chip: Self)
        ensures
            chip.range == range,
    {
        IntegerDivisionChip { range }
    }

    /// Commits `quo`, `rem`, `divisor` and `dividend` as they come and
    /// constrains them as a division: `quo * divisor + rem` is `dividend` in
    /// the field, and `quo` and `rem` have at most 32 bits. Returns the cell of
    /// `quo`.
    ///
    /// The circuit stays satisfied exactly if the pair is a decomposition of
    /// the dividend over the integers. Nothing asks for `rem` to be below
    /// `divisor`, so a pair other than the quotient and remainder of integer
    /// division can pass.
    pub fn constrain_division(&mut self, quo: u64, rem: u64, divisor: u32, dividend: u32) -> (w:
        Witness)
        ensures
            final(self).range@ == (CircuitModel {
                cells: old(self).range@.cells + committed_cells(
                    quo as int,
                    rem as int,
                    divisor as int,
                    dividend as int,
                    old(self).range@.lookup_bits,
                ),
                satisfied: old(self).range@.satisfied && is_decomposition(
                    quo as int,
                    rem as int,
                    divisor as int,
                    dividend as int,
                ),
                ..old(self).range@
            }),
            w.offset == old(self).range@.cells.len(),
            final(self).range.holds(w),
            final(self).range.value_at(w) == quo,
    {
        proof {
            lemma_product_is_exact(quo as int, rem as int, divisor as int);
            lemma_constraints_are_integer_identity(
                modulus(),
                quo as int,
                rem as int,
                divisor as int,
                dividend as int,
            );
            lemma2_to64();
        }
        let quo_cell = self.range.load_witness(quo);
        let rem_cell = self.range.load_witness(rem);
        let divisor_cell = self.range.load_witness(divisor as u64);
        let product = self.range.mul(quo_cell, divisor_cell);
        let reconstructed = self.range.add(product, rem_cell);
        let dividend_cell = self.range.load_witness(dividend as u64);
        self.range.constrain_equal(reconstructed, dividend_cell);
        assert(self.range@.cells =~= old(self).range@.cells + division_cells(
            quo as int,
            rem as int,
            divisor as int,
            dividend as int,
        ));
        self.range.range_check(quo_cell, OPERAND_BITS);
        self.range.range_check(rem_cell, OPERAND_BITS);
        assert(self.range@.cells =~= old(self).range@.cells + committed_cells(
            quo as int,
            rem as int,
            divisor as int,
            dividend as int,
            old(self).range@.lookup_bits,
        ));
        quo_cell
    }

    /// Commits the quotient and the remainder of `x` by `y` and constrains
    /// them as `constrain_division` does. Returns the cell of the quotient.
    ///
    /// The circuit stays satisfied if it was: the quotient and remainder of
    /// integer division meet every constraint that is recorded here.
    pub fn integer_division(&mut self, x: u32, y: u32) -> (quo: Witness)
        requires
            y != 0,
        ensures
            old(self).divided_into(*final(self), x, y, quo),
    {
        let quotient: u32 = x / y;
        let remainder: u32 = x % y;
        proof {
            lemma_floor_division_is_decomposition(x as int, y as int);
        }
        self.constrain_division(quotient as u64, remainder as u64, y, x)
    }

    /// Divides as `integer_division` does, and refuses a divisor of zero
    /// before anything is committed.
    pub fn prove_division(&mut self, x: u32, y: u32) -> (proved: Result<Witness, DivisionError>)
        ensures
            y == 0 ==> proved == Err::<Witness, DivisionError>(DivisionError::DivisionByZero)
                && *final(self) == *old(self),
            y != 0 ==> proved.is_ok() && old(self).divided_into(
                *final(self),
                x,
                y,
                proved.unwrap(),
            ),
    {
        if y == 0 {
            Err(DivisionError::DivisionByZero)
        } else {
            Ok(self.integer_division(x, y))
        }
    }
}

} // verus!
