//! Numbers in standard form: a mantissa times a power of ten.
//!
//! The values are `standardform::StandardForm`, and that crate does all the
//! work on them. This module says what such a value holds, and gives each
//! operation of the crate that the library calls a contract over that. None of
//! these contracts is proved here: each states what the crate's source does.
use core::cmp::Ordering;
use standardform::StandardForm;
use vstd::prelude::*;
use crate::double;

verus! {

#[verifier::external_type_specification]
#[verifier::external_body]
pub struct ExStandardForm(StandardForm);

/// What a number in standard form holds: the bit pattern of its mantissa, a
/// double, and its exponent of ten.
#[derive(Clone, Copy, Debug, PartialEq, Eq, Structural)]
pub struct Scientific {
    pub mantissa: u64,
    pub exponent: i8,
}

/// The mantissa and the exponent that `StandardForm::mantissa` and
/// `StandardForm::exponent` give for the value.
pub uninterp spec fn scientific(sf: StandardForm) -> Scientific;

/// How two exponents stand to each other.
pub open spec fn exponent_order(a: i8, b: i8) -> Ordering {
    if a < b {
        Ordering::Less
    } else if a == b {
        Ordering::Equal
    } else {
        Ordering::Greater
    }
}

/// Equality of two values: equal mantissas, as doubles are equal, and the same
/// exponent.
pub open spec fn same(a: Scientific, b: Scientific) -> bool {
    double::same(a.mantissa, b.mantissa) && a.exponent == b.exponent
}

/// The order of two values: by the mantissas where the exponents agree, else
/// by the exponents alone, whatever the signs. This is the order that the
/// crate gives its values, and not in every case that of the numbers they
/// stand for.
pub open spec fn order(a: Scientific, b: Scientific) -> Option<Ordering> {
    if a.exponent == b.exponent {
        double::order(a.mantissa, b.mantissa)
    } else {
        Some(exponent_order(a.exponent, b.exponent))
    }
}

/// The value that the crate makes of the integers 0 and 1: that mantissa with
/// the exponent 0.
pub open spec fn unit(n: u8) -> Scientific {
    Scientific { mantissa: if n == 0 { double::ZERO } else { double::ONE }, exponent: 0 }
}

/// `Clone::clone` of `StandardForm`, which the crate derives: a copy of the
/// value.
#[verifier::external_body]
pub(crate) fn copy(sf: &StandardForm) -> (r: StandardForm)
    ensures
        r == *sf,
{
    sf.clone()
}

/// `Neg::neg` of `StandardForm`: the crate negates the mantissa and keeps the
/// exponent.
#[verifier::external_body]
pub(crate) fn neg(sf: StandardForm) -> (r: StandardForm)
    ensures
        scientific(r).mantissa == double::negated(scientific(sf).mantissa),
        scientific(r).exponent == scientific(sf).exponent,
{
    -sf
}

/// `Signed::abs` of `StandardForm`: the crate takes the absolute value of the
/// mantissa and keeps the exponent.
#[verifier::external_body]
pub(crate) fn abs(sf: &StandardForm) -> (r: StandardForm)
    ensures
        scientific(r).mantissa == double::magnitude_of(scientific(*sf).mantissa),
        scientific(r).exponent == scientific(*sf).exponent,
{
    num_traits::Signed::abs(sf)
}

/// `Signed::is_positive` of `StandardForm`: the crate asks whether the sign
/// bit of the mantissa is clear.
#[verifier::external_body]
pub(crate) fn is_positive(sf: &StandardForm) -> (r: bool)
    ensures
        r == !double::sign_of(scientific(*sf).mantissa),
{
    num_traits::Signed::is_positive(sf)
}

/// `Signed::is_negative` of `StandardForm`: the crate asks whether the sign
/// bit of the mantissa is set.
#[verifier::external_body]
pub(crate) fn is_negative(sf: &StandardForm) -> (r: bool)
    ensures
        r == double::sign_of(scientific(*sf).mantissa),
{
    num_traits::Signed::is_negative(sf)
}

/// `PartialEq::eq` of `StandardForm`, which the crate derives: both fields
/// equal, the mantissas as doubles.
#[verifier::external_body]
pub(crate) fn eq(a: &StandardForm, b: &StandardForm) -> (r: bool)
    ensures
        r == same(scientific(*a), scientific(*b)),
{
    a == b
}

/// `PartialEq<u8>::eq` of `StandardForm`, for 0 and 1: the crate makes a value
/// of the integer, which for these two is the integer as mantissa with the
/// exponent 0, and compares with it.
#[verifier::external_body]
pub(crate) fn eq_small(sf: &StandardForm, n: u8) -> (r: bool)
    requires
        n <= 1,
    ensures
        r == same(scientific(*sf), unit(n)),
{
    *sf == n
}

/// `PartialOrd::partial_cmp` of `StandardForm`: the crate compares the
/// mantissas where the exponents are equal, and else the exponents.
#[verifier::external_body]
pub(crate) fn partial_cmp(a: &StandardForm, b: &StandardForm) -> (r: Option<Ordering>)
    ensures
        r == order(scientific(*a), scientific(*b)),
{
    a.partial_cmp(b)
}

} // verus!
