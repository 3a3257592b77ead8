//! The number: a double, a number in standard form, or a fraction.
use core::cmp::Ordering;
use standardform::StandardForm;
use vstd::prelude::*;
use crate::double;
use crate::rational;
use crate::rational::{Fraction, Parts};
use crate::scientific;
use crate::scientific::{scientific, Scientific};

verus! {

/// A numeric value in one of three representations. No value is converted when
/// it is stored: what an operation does with two representations is decided
/// when it is applied.
#[derive(Debug)]
pub enum Number {
    /// A double, as the 64 bits of its encoding.
    Decimal(u64),
    /// A mantissa times a power of ten.
    StandardForm(StandardForm),
    /// A rational fraction, or one of the states that stand beside them.
    Fraction(Fraction),
}

/// What a number holds, as plain values.
pub enum Value {
    Decimal(u64),
    StandardForm(Scientific),
    Fraction(Parts),
}

impl View for Number {
    type V = Value;

    open spec fn view(&self) -> Value {
        match self {
            Number::Decimal(bits) => Value::Decimal(*bits),
            Number::StandardForm(sf) => Value::StandardForm(scientific(*sf)),
            Number::Fraction(fr) => Value::Fraction(fr@),
        }
    }
}

/// The value with the opposite sign, each representation by its own rule.
pub open spec fn negated(v: Value) -> Value {
    match v {
        Value::Decimal(bits) => Value::Decimal(double::negated(bits)),
        Value::StandardForm(s) => Value::StandardForm(
            Scientific { mantissa: double::negated(s.mantissa), exponent: s.exponent },
        ),
        Value::Fraction(p) => Value::Fraction(rational::negated(p)),
    }
}

/// The value without its sign, each representation by its own rule.
pub open spec fn absolute(v: Value) -> Value {
    match v {
        Value::Decimal(bits) => Value::Decimal(double::magnitude_of(bits)),
        Value::StandardForm(s) => Value::StandardForm(
            Scientific { mantissa: double::magnitude_of(s.mantissa), exponent: s.exponent },
        ),
        Value::Fraction(p) => Value::Fraction(rational::absolute(p)),
    }
}

/// Whether the value carries a plus sign: a clear sign bit in a double or in a
/// mantissa, a plus in a fraction.
pub open spec fn positive(v: Value) -> bool {
    match v {
        Value::Decimal(bits) => !double::sign_of(bits),
        Value::StandardForm(s) => !double::sign_of(s.mantissa),
        Value::Fraction(p) => rational::positive(p),
    }
}

/// Whether the value carries a minus sign: a set sign bit in a double or in a
/// mantissa, a minus in a fraction.
pub open spec fn negative(v: Value) -> bool {
    match v {
        Value::Decimal(bits) => double::sign_of(bits),
        Value::StandardForm(s) => double::sign_of(s.mantissa),
        Value::Fraction(p) => rational::negative(p),
    }
}

/// Whether the value equals zero in its own representation: a double that is
/// zero, a zero mantissa with the exponent 0, a rational zero.
pub open spec fn is_zero(v: Value) -> bool {
    match v {
        Value::Decimal(bits) => double::zero(bits),
        Value::StandardForm(s) => double::zero(s.mantissa) && s.exponent == 0,
        Value::Fraction(p) => p matches Parts::Rational { numer, .. } && numer == 0,
    }
}

/// Whether the value equals one in its own representation: the double one,
/// the mantissa one with the exponent 0, a positive fraction whose numerator is
/// its denominator.
pub open spec fn is_one(v: Value) -> bool {
    match v {
        Value::Decimal(bits) => bits == double::ONE,
        Value::StandardForm(s) => s.mantissa == double::ONE && s.exponent == 0,
        Value::Fraction(p) => p matches Parts::Rational { negative, numer, denom } && !negative
            && numer == denom,
    }
}

/// The sign of the value as a double: zero for zero, else one with the sign of
/// the value.
pub open spec fn signum(v: Value) -> u64 {
    if is_zero(v) {
        double::ZERO
    } else if positive(v) {
        double::ONE
    } else {
        double::MINUS_ONE
    }
}

/// Equality of two values: each representation by its own rule, and no value
/// of one representation equals one of another.
pub open spec fn same(a: Value, b: Value) -> bool {
    match (a, b) {
        (Value::Decimal(x), Value::Decimal(y)) => double::same(x, y),
        (Value::StandardForm(x), Value::StandardForm(y)) => scientific::same(x, y),
        (Value::Fraction(x), Value::Fraction(y)) => rational::same(x, y),
        _ => false,
    }
}

/// The partial order of two values: each representation by its own rule, and
/// none between two representations.
pub open spec fn order(a: Value, b: Value) -> Option<Ordering> {
    match (a, b) {
        (Value::Decimal(x), Value::Decimal(y)) => double::order(x, y),
        (Value::StandardForm(x), Value::StandardForm(y)) => scientific::order(x, y),
        (Value::Fraction(x), Value::Fraction(y)) => Some(rational::order(x, y)),
        _ => None,
    }
}

impl Number {
    /// Zero, as a double.
    pub fn zero() -> (r: Number)
        ensures
            r == Number::Decimal(double::ZERO),
    {
        Number::Decimal(double::ZERO)
    }

    /// One, as a double.
    pub fn one() -> (r: Number)
        ensures
            r == Number::Decimal(double::ONE),
    {
        Number::Decimal(double::ONE)
    }

    /// Whether the number equals zero in its own representation.
    pub fn is_zero(&self) -> (r: bool)
        ensures
            r == is_zero(self@),
    {
        match self {
            Number::Decimal(bits) => double::equal(*bits, double::ZERO),
            Number::StandardForm(sf) => scientific::eq_small(sf, 0),
            Number::Fraction(fr) => {
                proof {
                    rational::units_are_plain();
                    rational::same_as_unit(fr@);
                }
                *fr == Fraction::new(0, 1)
            },
        }
    }

    /// Whether the number equals one in its own representation.
    pub fn is_one(&self) -> (r: bool)
        ensures
            r == is_one(self@),
    {
        match self {
            Number::Decimal(bits) => double::equal(*bits, double::ONE),
            Number::StandardForm(sf) => scientific::eq_small(sf, 1),
            Number::Fraction(fr) => {
                proof {
                    rational::units_are_plain();
                    rational::same_as_unit(fr@);
                }
                *fr == Fraction::new(1, 1)
            },
        }
    }

    /// The number with the opposite sign, in the same representation.
    pub fn neg(self) -> (r: Number)
        ensures
            r@ == negated(self@),
    {
        match self {
            Number::Decimal(bits) => Number::Decimal(double::negate(bits)),
            Number::StandardForm(sf) => Number::StandardForm(scientific::neg(sf)),
            Number::Fraction(fr) => Number::Fraction(fr.neg()),
        }
    }

    /// The number without its sign, in the same representation.
    pub fn abs(&self) -> (r: Number)
        ensures
            r@ == absolute(self@),
    {
        match self {
            Number::Decimal(bits) => Number::Decimal(double::abs(*bits)),
            Number::StandardForm(sf) => Number::StandardForm(scientific::abs(sf)),
            Number::Fraction(fr) => Number::Fraction(fr.abs()),
        }
    }

    /// Whether the number carries a plus sign.
    pub fn is_positive(&self) -> (r: bool)
        ensures
            r == positive(self@),
    {
        match self {
            Number::Decimal(bits) => !double::is_sign_negative(*bits),
            Number::StandardForm(sf) => scientific::is_positive(sf),
            Number::Fraction(fr) => fr.is_positive(),
        }
    }

    /// Whether the number carries a minus sign.
    pub fn is_negative(&self) -> (r: bool)
        ensures
            r == negative(self@),
    {
        match self {
            Number::Decimal(bits) => double::is_sign_negative(*bits),
            Number::StandardForm(sf) => scientific::is_negative(sf),
            Number::Fraction(fr) => fr.is_negative(),
        }
    }

    /// The sign of the number, always as a double: zero, one or minus one.
    pub fn signum(&self) -> (r: Number)
        ensures
            r == Number::Decimal(signum(self@)),
    {
        if self.is_zero() {
            Number::zero()
        } else if self.is_positive() {
            Number::one()
        } else {
            Number::one().neg()
        }
    }

    /// The order of two numbers that have one.
    pub fn cmp(&self, other: &Number) -> (r: Ordering)
        requires
            order(self@, other@) is Some,
        ensures
            Some(r) == order(self@, other@),
    {
        match self.partial_cmp(other) {
            Some(o) => o,
            None => Ordering::Equal,
        }
    }
}

impl Clone for Number {
    fn clone(&self) -> (r: Number)
        ensures
            r == *self,
    {
        match self {
            Number::Decimal(bits) => Number::Decimal(*bits),
            Number::StandardForm(sf) => Number::StandardForm(scientific::copy(sf)),
            Number::Fraction(fr) => Number::Fraction(*fr),
        }
    }
}

impl PartialEq for Number {
    fn eq(&self, other: &Number) -> (r: bool) {
        match (self, other) {
            (Number::Decimal(a), Number::Decimal(b)) => double::equal(*a, *b),
            (Number::StandardForm(a), Number::StandardForm(b)) => scientific::eq(a, b),
            (Number::Fraction(a), Number::Fraction(b)) => *a == *b,
            _ => false,
        }
    }
}

impl vstd::std_specs::cmp::PartialEqSpecImpl for Number {
    open spec fn obeys_eq_spec() -> bool {
        true
    }

    open spec fn eq_spec(&self, other: &Number) -> bool {
        same(self@, other@)
    }
}

impl PartialOrd for Number {
    fn partial_cmp(&self, other: &Number) -> (r: Option<Ordering>) {
        match (self, other) {
            (Number::Decimal(a), Number::Decimal(b)) => double::compare(*a, *b),
            (Number::StandardForm(a), Number::StandardForm(b)) => scientific::partial_cmp(a, b),
            (Number::Fraction(a), Number::Fraction(b)) => Some(a.total_order(b)),
            _ => None,
        }
    }
}

impl vstd::std_specs::cmp::PartialOrdSpecImpl for Number {
    open spec fn obeys_partial_cmp_spec() -> bool {
        true
    }

    open spec fn partial_cmp_spec(&self, other: &Number) -> Option<Ordering> {
        order(self@, other@)
    }
}

impl From<StandardForm> for Number {
    fn from(value: StandardForm) -> (r: Number) {
        Number::StandardForm(value)
    }
}

impl vstd::std_specs::convert::FromSpecImpl<StandardForm> for Number {
    open spec fn obeys_from_spec() -> bool {
        true
    }

    open spec fn from_spec(value: StandardForm) -> Number {
        Number::StandardForm(value)
    }
}

impl From<Fraction> for Number {
    fn from(value: Fraction) -> (r: Number) {
        Number::Fraction(value)
    }
}

impl vstd::std_specs::convert::FromSpecImpl<Fraction> for Number {
    open spec fn obeys_from_spec() -> bool {
        true
    }

    open spec fn from_spec(value: Fraction) -> Number {
        Number::Fraction(value)
    }
}

/// A double that is not a number has no order with any value, of whatever
/// representation, and equals none: the total order is not to be asked for.
pub proof fn not_a_number_is_unordered(bits: u64, other: Value)
    requires
        double::nan(bits),
    ensures
        order(Value::Decimal(bits), other) is None,
        order(other, Value::Decimal(bits)) is None,
        !same(Value::Decimal(bits), other),
        !same(other, Value::Decimal(bits)),
{
}

/// Two values of different representations have no order and are not equal.
pub proof fn representations_do_not_mix(a: Value, b: Value)
    requires
        (a is Decimal) != (b is Decimal) || (a is StandardForm) != (b is StandardForm),
    ensures
        order(a, b) is None,
        !same(a, b),
{
}

/// Two values are equal exactly where the order calls them equal.
pub proof fn order_agrees_with_equality(a: Value, b: Value)
    ensures
        same(a, b) <==> order(a, b) == Some(Ordering::Equal),
{
}

/// The order of two values turns over with them.
pub proof fn order_turns_over(a: Value, b: Value)
    ensures
        order(a, b) is None <==> order(b, a) is None,
        order(a, b) == Some(Ordering::Less) <==> order(b, a) == Some(Ordering::Greater),
        order(a, b) == Some(Ordering::Equal) <==> order(b, a) == Some(Ordering::Equal),
        same(a, b) <==> same(b, a),
{
}

/// The order is transitive, over fractions with denominators that are not 0.
pub proof fn order_is_transitive(a: Value, b: Value, c: Value)
    requires
        a matches Value::Fraction(p) ==> rational::well_formed(p),
        b matches Value::Fraction(p) ==> rational::well_formed(p),
        c matches Value::Fraction(p) ==> rational::well_formed(p),
        order(a, b) == Some(Ordering::Less) || order(a, b) == Some(Ordering::Equal),
        order(b, c) == Some(Ordering::Less) || order(b, c) == Some(Ordering::Equal),
    ensures
        order(a, c) == Some(Ordering::Less) || order(a, c) == Some(Ordering::Equal),
{
    match (a, b, c) {
        (Value::Fraction(p), Value::Fraction(q), Value::Fraction(r)) => {
            rational::order_is_transitive(p, q, r);
        },
        _ => {},
    }
}

/// No value carries both signs; a double and a mantissa carry one of the two.
pub proof fn signs_exclude_each_other(v: Value)
    ensures
        !(positive(v) && negative(v)),
        !(v is Fraction) ==> positive(v) || negative(v),
{
}

/// The absolute value carries no minus sign, is its own absolute value, and is
/// the value itself where that carries none.
pub proof fn absolute_is_unsigned(v: Value)
    ensures
        !negative(absolute(v)),
        absolute(absolute(v)) == absolute(v),
        !negative(v) ==> absolute(v) == v,
        absolute(negated(v)) == absolute(v),
{
}

/// Negation turns the sign over and comes back to the value when done twice,
/// but for a fraction that is zero, which stays positive, or no number.
pub proof fn negation_turns_the_sign(v: Value)
    requires
        v matches Value::Fraction(p) ==> !(p is NaN) && !(p matches Parts::Rational {
            numer,
            ..
        } && numer == 0),
    ensures
        negative(negated(v)) == positive(v),
        positive(negated(v)) == negative(v),
        negated(negated(v)) == v,
{
}

/// The sign of a value is zero exactly for zero, and else one or minus one.
pub proof fn sign_is_one_of_three(v: Value)
    ensures
        signum(v) == double::ZERO || signum(v) == double::ONE || signum(v) == double::MINUS_ONE,
        signum(v) == double::ZERO <==> is_zero(v),
        signum(v) == double::ONE ==> positive(v),
        signum(v) == double::MINUS_ONE ==> !positive(v),
{
}

} // verus!
