//! The arithmetic that one division gadget enforces, stated over the integers.
//!
//! A field element is modelled by its canonical representative, an integer in
//! `[0, p)` for a field of order `p`. Nothing here touches a circuit: these are
//! the definitions that the circuit's contracts speak of, and the laws that
//! relate what the constraints accept to integer division.

use vstd::arithmetic::div_mod::{
    lemma_fundamental_div_mod, lemma_fundamental_div_mod_converse, lemma_small_mod,
};
use vstd::arithmetic::mul::{
    lemma_mul_inequality, lemma_mul_is_commutative, lemma_mul_nonnegative,
};
use vstd::prelude::*;

verus! {

/// The number of bits of a quotient, a remainder, a divisor and a dividend.
pub const OPERAND_BITS: usize = 32;

/// One more than the largest operand, `2^32`.
pub open spec fn operand_limit() -> int {
    0x1_0000_0000
}

/// Whether `v` is the value of an unsigned 32-bit operand.
pub open spec fn is_operand(v: int) -> bool {
    0 <= v < operand_limit()
}

/// The order of the scalar field of the curve BN254, in which the circuits of
/// this library compute.
pub open spec fn modulus() -> int {
    21888242871839275222246405745257275088548364400416034343698204186575808495617int
}

/// Whether `v` is the canonical representative of an element of the field of
/// order `p`.
pub open spec fn is_element(p: int, v: int) -> bool {
    0 <= v < p
}

/// Whether a field of order `p` is large enough that `quo * divisor + rem`
/// cannot reach `p` when all three are operands. The largest such sum is
/// `(2^32 - 1) * (2^32 - 1) + (2^32 - 1) = 2^64 - 2^32`.
pub open spec fn wrap_free(p: int) -> bool {
    p > 0xFFFF_FFFF_0000_0000
}

/// The product of two elements of the field of order `p`.
pub open spec fn field_mul(p: int, a: int, b: int) -> int {
    (a * b) % p
}

/// The sum of two elements of the field of order `p`.
pub open spec fn field_add(p: int, a: int, b: int) -> int {
    (a + b) % p
}

/// What the constraints of one division demand of the committed elements of
/// the field of order `p`: the product of quotient and divisor, plus the
/// remainder, is the dividend as field elements, and quotient and remainder
/// pass a 32-bit range check. That the remainder is below the divisor is not
/// among the demands.
pub open spec fn constraints_hold(p: int, quo: int, rem: int, divisor: int, dividend: int) -> bool {
    &&& field_add(p, field_mul(p, quo, divisor), rem) == dividend
    &&& quo < operand_limit()
    &&& rem < operand_limit()
}

/// Whether `quo` and `rem` are 32-bit operands with
/// `quo * divisor + rem == dividend` over the integers.
pub open spec fn is_decomposition(quo: int, rem: int, divisor: int, dividend: int) -> bool {
    &&& quo * divisor + rem == dividend
    &&& is_operand(quo)
    &&& is_operand(rem)
}

/// The product of two operands is at most `(2^32 - 1)^2`.
proof fn lemma_operand_product_bound(a: int, b: int)
    requires
        is_operand(a),
        is_operand(b),
    ensures
        0 <= a * b <= 0xFFFF_FFFE_0000_0001,
{
    lemma_mul_nonnegative(a, b);
    lemma_mul_inequality(a, 0xFFFF_FFFF, b);
    lemma_mul_is_commutative(0xFFFF_FFFF, b);
    lemma_mul_inequality(b, 0xFFFF_FFFF, 0xFFFF_FFFF);
}

/// In the field of this library, the product of a 64-bit value and an operand,
/// and the sum of that product and another 64-bit value, are the integer
/// product and sum: neither reaches the field's order.
pub proof fn lemma_product_is_exact(a: int, b: int, divisor: int)
    requires
        0 <= a <= u64::MAX,
        0 <= b <= u64::MAX,
        is_operand(divisor),
    ensures
        field_mul(modulus(), a, divisor) == a * divisor,
        field_add(modulus(), a * divisor, b) == a * divisor + b,
{
    lemma_mul_nonnegative(a, divisor);
    lemma_mul_inequality(a, 0xFFFF_FFFF_FFFF_FFFF, divisor);
    lemma_mul_is_commutative(0xFFFF_FFFF_FFFF_FFFF, divisor);
    lemma_mul_inequality(divisor, 0xFFFF_FFFF, 0xFFFF_FFFF_FFFF_FFFF);
    lemma_small_mod((a * divisor) as nat, modulus() as nat);
    lemma_small_mod((a * divisor + b) as nat, modulus() as nat);
}

/// In a field that is large enough, the constraints accept exactly the pairs
/// of 32-bit operands that satisfy the division identity over the integers:
/// no pair passes by wrapping around the field's order.
pub proof fn lemma_constraints_are_integer_identity(
    p: int,
    quo: int,
    rem: int,
    divisor: int,
    dividend: int,
)
    requires
        wrap_free(p),
        is_element(p, quo),
        is_element(p, rem),
        is_operand(divisor),
        is_operand(dividend),
    ensures
        constraints_hold(p, quo, rem, divisor, dividend) <==> is_decomposition(
            quo,
            rem,
            divisor,
            dividend,
        ),
{
    if is_operand(quo) && is_operand(rem) {
        lemma_operand_product_bound(quo, divisor);
        lemma_small_mod((quo * divisor) as nat, p as nat);
        lemma_small_mod((quo * divisor + rem) as nat, p as nat);
    }
}

/// The quotient and remainder of integer division are a decomposition, with
/// the remainder below the divisor.
pub proof fn lemma_floor_division_is_decomposition(dividend: int, divisor: int)
    requires
        is_operand(dividend),
        is_operand(divisor),
        divisor != 0,
    ensures
        is_decomposition(dividend / divisor, dividend % divisor, divisor, dividend),
        dividend % divisor < divisor,
{
    let q = dividend / divisor;
    let r = dividend % divisor;
    lemma_fundamental_div_mod(dividend, divisor);
    lemma_mul_is_commutative(divisor, q);
    assert(0 <= r < divisor);
    assert(0 <= q <= dividend) by (nonlinear_arith)
        requires
            q * divisor + r == dividend,
            0 <= r < divisor,
            0 <= dividend,
    ;
}

/// In a field that is large enough, the constraints accept the quotient and
/// remainder of integer division, whatever the dividend and the divisor other
/// than zero: the constraints of a division can always be met.
pub proof fn lemma_constraints_accept_floor_division(p: int, dividend: int, divisor: int)
    requires
        wrap_free(p),
        is_operand(dividend),
        is_operand(divisor),
        divisor != 0,
    ensures
        constraints_hold(p, dividend / divisor, dividend % divisor, divisor, dividend),
{
    lemma_floor_division_is_decomposition(dividend, divisor);
    lemma_constraints_are_integer_identity(
        p,
        dividend / divisor,
        dividend % divisor,
        divisor,
        dividend,
    );
}

/// The decomposition is not unique: taking one from the quotient and adding
/// the divisor to the remainder gives another one, as long as the remainder
/// stays a 32-bit operand. By `lemma_constraints_are_integer_identity` the
/// constraints accept it too, though its quotient is not the quotient of
/// integer division.
pub proof fn lemma_lower_quotient_is_decomposition(
    quo: int,
    rem: int,
    divisor: int,
    dividend: int,
)
    requires
        is_decomposition(quo, rem, divisor, dividend),
        quo >= 1,
        is_operand(rem + divisor),
    ensures
        is_decomposition(quo - 1, rem + divisor, divisor, dividend),
{
    assert((quo - 1) * divisor + (rem + divisor) == quo * divisor + rem) by (nonlinear_arith);
}

/// With the remainder below the divisor, which the constraints do not ask
/// for, a decomposition is the one of integer division.
pub proof fn lemma_bounded_remainder_is_floor_division(
    quo: int,
    rem: int,
    divisor: int,
    dividend: int,
)
    requires
        is_decomposition(quo, rem, divisor, dividend),
        rem < divisor,
    ensures
        quo == dividend / divisor,
        rem == dividend % divisor,
{
    lemma_mul_is_commutative(quo, divisor);
    lemma_fundamental_div_mod_converse(dividend, divisor, quo, rem);
}

} // verus!
