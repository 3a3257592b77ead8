//! Doubles as bit patterns.
//!
//! A double-precision number is held as the 64 bits of its IEEE 754 binary64
//! encoding: one sign bit, eleven exponent bits, fifty-two fraction bits. What
//! the type system of the prover can reason about exactly is the integer; this
//! module says which questions about the number can be answered on the integer
//! alone, and answers them: sign, negation, absolute value, zero, not-a-number,
//! equality and order.
use core::cmp::Ordering;
use vstd::arithmetic::power2::{
    lemma2_to64_rest,
    lemma_pow2_adds,
    lemma_pow2_pos,
    lemma_pow2_strictly_increases,
    lemma_pow2_unfold,
    pow2,
};
use vstd::prelude::*;

verus! {

/// The sign bit.
pub const SIGN: u64 = 0x8000_0000_0000_0000;

/// Positive infinity. A larger magnitude is not a number.
pub const INFINITY: u64 = 0x7FF0_0000_0000_0000;

/// Positive zero.
pub const ZERO: u64 = 0;

/// One.
pub const ONE: u64 = 0x3FF0_0000_0000_0000;

/// Minus one.
pub const MINUS_ONE: u64 = 0xBFF0_0000_0000_0000;

/// Two to the power of 52: what one step of the exponent field weighs in a
/// pattern, and the leading one that a normal number has above its fraction
/// field.
pub const LEADING_ONE: u64 = 0x0010_0000_0000_0000;

/// The NaN that stands for every NaN where doubles are hashed.
pub const CANONICAL_NAN: u64 = 0x7FF8_0000_0000_0000;

/// Whether the sign bit is set. True of negative zero and of a NaN with the
/// bit set.
pub open spec fn sign_of(bits: u64) -> bool {
    bits >= SIGN
}

/// The pattern without its sign bit.
pub open spec fn magnitude_of(bits: u64) -> u64 {
    if bits >= SIGN {
        (bits - SIGN) as u64
    } else {
        bits
    }
}

/// The pattern with its sign bit turned over.
pub open spec fn negated(bits: u64) -> u64 {
    if bits >= SIGN {
        (bits - SIGN) as u64
    } else {
        (bits + SIGN) as u64
    }
}

/// Not a number: all exponent bits set and a fraction that is not zero.
pub open spec fn nan(bits: u64) -> bool {
    magnitude_of(bits) > INFINITY
}

/// Positive or negative zero.
pub open spec fn zero(bits: u64) -> bool {
    magnitude_of(bits) == 0
}

/// Neither a NaN nor an infinity.
pub open spec fn finite(bits: u64) -> bool {
    magnitude_of(bits) < INFINITY
}

/// The exponent field: the eleven bits under the sign bit.
pub open spec fn exponent_field(bits: u64) -> nat {
    (magnitude_of(bits) / LEADING_ONE) as nat
}

/// The fraction field: the low 52 bits.
pub open spec fn fraction_field(bits: u64) -> nat {
    (magnitude_of(bits) % LEADING_ONE) as nat
}

/// The absolute value of a finite double, counted in units of two to the
/// power of minus 1074, of which every finite double is a whole number: the
/// fraction field where the exponent field is 0, and else the fraction field
/// under a leading one, doubled for every step of the exponent field above 1.
pub open spec fn units(bits: u64) -> nat {
    if exponent_field(bits) == 0 {
        fraction_field(bits)
    } else {
        ((LEADING_ONE + fraction_field(bits)) * pow2((exponent_field(bits) - 1) as nat)) as nat
    }
}

/// The value of a finite double, in the same units.
pub open spec fn value(bits: u64) -> int {
    if sign_of(bits) {
        -(units(bits) as int)
    } else {
        units(bits) as int
    }
}

/// The place of a number on the line of integers: the encoding grows with the
/// absolute value, so the magnitude with the sign in front orders every
/// pattern that is a number as the numbers themselves are ordered. Both zeros
/// stand at 0.
pub open spec fn ordinal(bits: u64) -> int {
    if sign_of(bits) {
        -(magnitude_of(bits) as int)
    } else {
        magnitude_of(bits) as int
    }
}

/// Equality of the two numbers: never with a NaN, and the two zeros are equal.
pub open spec fn same(a: u64, b: u64) -> bool {
    !nan(a) && !nan(b) && ordinal(a) == ordinal(b)
}

/// How two integers stand to each other.
pub open spec fn order_of(x: int, y: int) -> Ordering {
    if x < y {
        Ordering::Less
    } else if x == y {
        Ordering::Equal
    } else {
        Ordering::Greater
    }
}

/// The partial order of the two numbers: none where either is a NaN.
pub open spec fn order(a: u64, b: u64) -> Option<Ordering> {
    if nan(a) || nan(b) {
        None
    } else {
        Some(order_of(ordinal(a), ordinal(b)))
    }
}

/// One pattern for all that a hash must not tell apart: every NaN, and the two
/// zeros. Every other number is its own pattern.
pub open spec fn canonical(bits: u64) -> u64 {
    if nan(bits) {
        CANONICAL_NAN
    } else if zero(bits) {
        ZERO
    } else {
        bits
    }
}

/// Whether the sign bit is set.
pub fn is_sign_negative(bits: u64) -> (r: bool)
    ensures
        r == sign_of(bits),
{
    bits >= SIGN
}

/// The absolute value: the sign bit cleared, also in a NaN.
pub fn abs(bits: u64) -> (r: u64)
    ensures
        r == magnitude_of(bits),
{
    if bits >= SIGN {
        bits - SIGN
    } else {
        bits
    }
}

/// The number with the opposite sign: the sign bit turned over, also in a NaN.
pub fn negate(bits: u64) -> (r: u64)
    ensures
        r == negated(bits),
{
    if bits >= SIGN {
        bits - SIGN
    } else {
        bits + SIGN
    }
}

/// Whether the pattern is not a number.
pub fn is_nan(bits: u64) -> (r: bool)
    ensures
        r == nan(bits),
{
    abs(bits) > INFINITY
}

/// Whether the pattern is one of the two zeros.
pub fn is_zero(bits: u64) -> (r: bool)
    ensures
        r == zero(bits),
{
    abs(bits) == 0
}

/// The pattern to hash a double by.
pub fn canonical_bits(bits: u64) -> (r: u64)
    ensures
        r == canonical(bits),
{
    if is_nan(bits) {
        CANONICAL_NAN
    } else if is_zero(bits) {
        ZERO
    } else {
        bits
    }
}

/// Equality as the numbers have it.
pub fn equal(a: u64, b: u64) -> (r: bool)
    ensures
        r == same(a, b),
{
    if is_nan(a) || is_nan(b) {
        false
    } else {
        let x: u64 = abs(a);
        let y: u64 = abs(b);
        if x == 0 && y == 0 {
            true
        } else {
            a == b
        }
    }
}

/// The partial order as the numbers have it.
pub fn compare(a: u64, b: u64) -> (r: Option<Ordering>)
    ensures
        r == order(a, b),
{
    if is_nan(a) || is_nan(b) {
        return None;
    }
    let x: u64 = abs(a);
    let y: u64 = abs(b);
    let a_neg: bool = is_sign_negative(a);
    let b_neg: bool = is_sign_negative(b);
    if x == 0 && y == 0 {
        Some(Ordering::Equal)
    } else if a_neg && !b_neg {
        Some(Ordering::Less)
    } else if !a_neg && b_neg {
        Some(Ordering::Greater)
    } else if x == y {
        Some(Ordering::Equal)
    } else if (x < y) != a_neg {
        Some(Ordering::Less)
    } else {
        Some(Ordering::Greater)
    }
}

/// Negation is its own inverse, keeps a NaN a NaN, and mirrors the place on
/// the line.
pub proof fn negation_mirrors(bits: u64)
    ensures
        negated(negated(bits)) == bits,
        nan(negated(bits)) == nan(bits),
        magnitude_of(negated(bits)) == magnitude_of(bits),
        sign_of(negated(bits)) == !sign_of(bits),
        ordinal(negated(bits)) == -ordinal(bits),
{
}

/// The absolute value has no sign, changes nothing that had none, and stands
/// at the distance of the number from zero.
pub proof fn magnitude_is_unsigned(bits: u64)
    ensures
        !sign_of(magnitude_of(bits)),
        !sign_of(bits) ==> magnitude_of(bits) == bits,
        nan(magnitude_of(bits)) == nan(bits),
        ordinal(magnitude_of(bits)) >= 0,
        ordinal(magnitude_of(bits)) == if ordinal(bits) < 0 { -ordinal(bits) } else { ordinal(bits) },
{
}

/// A NaN is equal to nothing and ordered with nothing, itself included.
pub proof fn nan_is_unordered(a: u64, b: u64)
    requires
        nan(a),
    ensures
        order(a, b) is None,
        order(b, a) is None,
        !same(a, b),
        !same(b, a),
{
}

/// Doubles that are equal are hashed by one pattern, and so are all NaNs;
/// numbers that are not equal are hashed by different patterns, and none by
/// that of the NaNs. A pattern to hash by is its own.
pub proof fn equal_doubles_hash_alike(a: u64, b: u64)
    ensures
        same(a, b) ==> canonical(a) == canonical(b),
        nan(a) && nan(b) ==> canonical(a) == canonical(b),
        !nan(a) && !nan(b) && !same(a, b) ==> canonical(a) != canonical(b),
        !nan(a) ==> canonical(a) != CANONICAL_NAN,
        canonical(canonical(a)) == canonical(a),
{
}

/// The named patterns are the numbers they are named for: one is 2 to the
/// power of 1074 units of 2 to the power of minus 1074.
pub proof fn constants_have_their_values()
    ensures
        value(ZERO) == 0,
        value(SIGN) == 0,
        value(ONE) == pow2(1074),
        value(MINUS_ONE) == -pow2(1074),
        LEADING_ONE == pow2(52),
        !finite(INFINITY) && !nan(INFINITY) && !sign_of(INFINITY),
        nan(CANONICAL_NAN),
{
    lemma2_to64_rest();
    lemma_pow2_adds(52, 1022);
    assert(exponent_field(ONE) == 1023 && fraction_field(ONE) == 0);
    assert(exponent_field(MINUS_ONE) == 1023 && fraction_field(MINUS_ONE) == 0);
}

/// A larger pattern without sign is a larger absolute value.
proof fn units_grow(a: u64, b: u64)
    requires
        finite(a),
        finite(b),
        magnitude_of(a) < magnitude_of(b),
    ensures
        units(a) < units(b),
{
    let p = LEADING_ONE as int;
    let ea = exponent_field(a);
    let eb = exponent_field(b);
    let fa = fraction_field(a) as int;
    let fb = fraction_field(b) as int;
    if ea == eb {
        if ea != 0 {
            let w = pow2((ea - 1) as nat) as int;
            lemma_pow2_pos((ea - 1) as nat);
            assert((p + fa) * w < (p + fb) * w) by (nonlinear_arith)
                requires
                    fa < fb,
                    w > 0,
            ;
        }
    } else {
        let wb = pow2((eb - 1) as nat) as int;
        lemma_pow2_pos((eb - 1) as nat);
        assert(p * wb <= (p + fb) * wb) by (nonlinear_arith)
            requires
                fb >= 0,
                wb > 0,
        ;
        if ea == 0 {
            assert(p <= p * wb) by (nonlinear_arith)
                requires
                    p > 0,
                    wb >= 1,
            ;
        } else {
            let wa = pow2((ea - 1) as nat) as int;
            lemma_pow2_pos((ea - 1) as nat);
            lemma_pow2_unfold(ea);
            if ea < eb - 1 {
                lemma_pow2_strictly_increases(ea, (eb - 1) as nat);
            }
            assert((p + fa) * wa < p * wb) by (nonlinear_arith)
                requires
                    0 <= fa < p,
                    wa > 0,
                    2 * wa <= wb,
            ;
        }
    }
}

/// A finite double has the absolute value 0 exactly where it is one of the
/// two zeros.
proof fn units_of_zero(a: u64)
    requires
        finite(a),
    ensures
        units(a) == 0 <==> zero(a),
{
    if !zero(a) {
        units_grow(ZERO, a);
    }
}

/// Finite doubles stand on the line of integers in the order of their values.
pub proof fn places_are_in_the_order_of_values(a: u64, b: u64)
    requires
        finite(a),
        finite(b),
    ensures
        ordinal(a) < ordinal(b) <==> value(a) < value(b),
        ordinal(a) == ordinal(b) <==> value(a) == value(b),
{
    units_of_zero(a);
    units_of_zero(b);
    if magnitude_of(a) < magnitude_of(b) {
        units_grow(a, b);
    } else if magnitude_of(b) < magnitude_of(a) {
        units_grow(b, a);
    }
}

/// The order of finite doubles is the order of their values, and they are
/// equal where their values are. An infinity lies beyond every finite double
/// on its side.
pub proof fn order_is_that_of_values(a: u64, b: u64)
    requires
        finite(a),
        !nan(b),
    ensures
        finite(b) ==> order(a, b) == Some(order_of(value(a), value(b))),
        finite(b) ==> (same(a, b) <==> value(a) == value(b)),
        !finite(b) && sign_of(b) ==> order(a, b) == Some(Ordering::Greater) && order(b, a) == Some(
            Ordering::Less,
        ),
        !finite(b) && !sign_of(b) ==> order(a, b) == Some(Ordering::Less) && order(b, a) == Some(
            Ordering::Greater,
        ),
{
    if finite(b) {
        places_are_in_the_order_of_values(a, b);
    }
}

/// Among numbers the order is total, and it is equality exactly where the
/// order says equal.
pub proof fn order_is_total(a: u64, b: u64)
    requires
        !nan(a),
        !nan(b),
    ensures
        order(a, b) is Some,
        order(a, a) == Some(Ordering::Equal),
        same(a, b) <==> order(a, b) == Some(Ordering::Equal),
        order(a, b) == Some(Ordering::Less) <==> order(b, a) == Some(Ordering::Greater),
        order(a, b) == Some(Ordering::Equal) <==> order(b, a) == Some(Ordering::Equal),
{
}

/// The order is transitive.
pub proof fn order_is_transitive(a: u64, b: u64, c: u64)
    requires
        order(a, b) == Some(Ordering::Less) || order(a, b) == Some(Ordering::Equal),
        order(b, c) == Some(Ordering::Less) || order(b, c) == Some(Ordering::Equal),
    ensures
        order(a, c) == Some(Ordering::Less) || order(a, c) == Some(Ordering::Equal),
        order(a, c) == Some(Ordering::Equal) ==> order(a, b) == Some(Ordering::Equal) && order(
            b,
            c,
        ) == Some(Ordering::Equal),
{
}

} // verus!
