//! Which arithmetic two numbers meet in.
//!
//! Addition, subtraction, multiplication, division and remainder all pair the
//! representations in one way, and raising to a power in a second. This module
//! decides the pairing: it hands back either the finished number or the
//! operation that is left, with its operands in the order in which the
//! operation takes them. The arithmetic itself, on doubles and inside the two
//! crates, is the caller's.
use standardform::StandardForm;
use vstd::prelude::*;
use vstd::std_specs::bits::u32_trailing_zeros;
use crate::number::Number;
use crate::rational::{Fraction, Parts};

verus! {

/// A rational fraction on its way into standard form: the mantissa is the
/// numerator with the sign, and the exponent of ten is minus the number of
/// trailing zero bits of the denominator.
///
/// The value is that of the fraction only where the denominator is the power
/// of ten with that exponent (1, 10, 100 and so on; a thousand ends in three
/// zero bits). For every other denominator the bridge stands for another number
/// than the fraction did.
#[derive(Clone, Copy, Debug, PartialEq, Eq, Structural)]
pub struct Bridge {
    pub negative: bool,
    pub numer: u32,
    pub exponent: i8,
}

/// An operation that is left to do.
#[allow(inconsistent_fields)]
#[derive(Debug, PartialEq)]
pub enum Task {
    /// Both are doubles: the arithmetic of doubles, `left` first.
    Doubles { left: u64, right: u64 },
    /// A number in standard form with a double. The number in standard form is
    /// the left operand on whichever side it stood.
    StandardFormDouble { left: StandardForm, right: u64 },
    /// A fraction with a double. The fraction is the left operand on whichever
    /// side it stood.
    FractionDouble { left: Fraction, right: u64 },
    /// Both are in standard form.
    StandardForms { left: StandardForm, right: StandardForm },
    /// Both are fractions.
    Fractions { left: Fraction, right: Fraction },
    /// A number in standard form with a rational fraction on its right, which is
    /// bridged into standard form first.
    StandardFormBridge { left: StandardForm, right: Bridge },
    /// A rational fraction, bridged into standard form first, with a number in
    /// standard form on its right.
    BridgeStandardForm { left: Bridge, right: StandardForm },
}

/// What is known of a result before any arithmetic is done.
#[derive(Debug, PartialEq)]
pub enum Outcome {
    /// The result.
    Ready(Number),
    /// The result is what this operation gives; a `Task::Doubles` gives a
    /// double, every other a number in the representation of its operands.
    Pending(Task),
}

/// One operand of a power, on its way to a double.
#[derive(Debug, PartialEq)]
pub enum Operand {
    /// A double.
    Double(u64),
    /// A number in standard form: the crate's conversion makes the double.
    StandardForm(StandardForm),
    /// A rational fraction: the double is the numerator, with the sign, over
    /// the denominator.
    Ratio { negative: bool, numer: u32, denom: u32 },
}

/// What is known of a power before any arithmetic is done.
#[derive(Debug, PartialEq)]
pub enum Power {
    /// The result.
    Ready(Number),
    /// The result is the double `base` raised to `exponent`.
    Pending { base: Operand, exponent: Operand },
}

/// The bridge of a rational fraction.
pub open spec fn bridged(negative: bool, numer: u32, denom: u32) -> Bridge {
    Bridge { negative, numer, exponent: (-(u32_trailing_zeros(denom) as int)) as i8 }
}

/// The pairing for the five binary operations.
///
/// Two numbers of one representation meet in it. A double gives way to the
/// other representation. A number in standard form and a rational fraction meet
/// in standard form, across the bridge. A fraction that is no rational number,
/// met by a number in standard form, is the result itself.
pub open spec fn paired(lhs: Number, rhs: Number) -> Outcome {
    match (lhs, rhs) {
        (Number::Decimal(a), Number::Decimal(b)) => Outcome::Pending(
            Task::Doubles { left: a, right: b },
        ),
        (Number::Decimal(d), Number::StandardForm(sf)) => Outcome::Pending(
            Task::StandardFormDouble { left: sf, right: d },
        ),
        (Number::Decimal(d), Number::Fraction(fr)) => Outcome::Pending(
            Task::FractionDouble { left: fr, right: d },
        ),
        (Number::StandardForm(a), Number::StandardForm(b)) => Outcome::Pending(
            Task::StandardForms { left: a, right: b },
        ),
        (Number::StandardForm(sf), Number::Decimal(d)) => Outcome::Pending(
            Task::StandardFormDouble { left: sf, right: d },
        ),
        (Number::StandardForm(sf), Number::Fraction(fr)) => match fr@ {
            Parts::Rational { negative, numer, denom } => Outcome::Pending(
                Task::StandardFormBridge { left: sf, right: bridged(negative, numer, denom) },
            ),
            _ => Outcome::Ready(Number::Fraction(fr)),
        },
        (Number::Fraction(a), Number::Fraction(b)) => Outcome::Pending(
            Task::Fractions { left: a, right: b },
        ),
        (Number::Fraction(fr), Number::Decimal(d)) => Outcome::Pending(
            Task::FractionDouble { left: fr, right: d },
        ),
        (Number::Fraction(fr), Number::StandardForm(sf)) => match fr@ {
            Parts::Rational { negative, numer, denom } => Outcome::Pending(
                Task::BridgeStandardForm { left: bridged(negative, numer, denom), right: sf },
            ),
            _ => Outcome::Ready(Number::Fraction(fr)),
        },
    }
}

/// The operand that a number is in a power; none for a fraction that is no
/// rational number.
pub open spec fn operand_of(n: Number) -> Option<Operand> {
    match n {
        Number::Decimal(bits) => Some(Operand::Double(bits)),
        Number::StandardForm(sf) => Some(Operand::StandardForm(sf)),
        Number::Fraction(fr) => match fr@ {
            Parts::Rational { negative, numer, denom } => Some(
                Operand::Ratio { negative, numer, denom },
            ),
            _ => None,
        },
    }
}

/// The pairing for a power: a power of doubles, whatever the two
/// representations, unless a fraction is no rational number. Such a fraction is
/// the result itself, the base before the exponent.
pub open spec fn raised(base: Number, exponent: Number) -> Power {
    match operand_of(base) {
        None => Power::Ready(base),
        Some(b) => match operand_of(exponent) {
            None => Power::Ready(exponent),
            Some(e) => Power::Pending { base: b, exponent: e },
        },
    }
}

/// The positive difference: zero where the first number is at most the second
/// in the partial order, else what their subtraction gives.
pub open spec fn positive_difference(lhs: Number, rhs: Number) -> Outcome {
    match crate::number::order(lhs@, rhs@) {
        Some(core::cmp::Ordering::Less) | Some(core::cmp::Ordering::Equal) => Outcome::Ready(
            Number::Decimal(crate::double::ZERO),
        ),
        _ => paired(lhs, rhs),
    }
}

/// Bridges a rational fraction into standard form.
pub fn bridge(negative: bool, numer: u32, denom: u32) -> (r: Bridge)
    ensures
        r == bridged(negative, numer, denom),
        -32 <= r.exponent <= 0,
{
    broadcast use vstd::std_specs::bits::group_bits_axioms;

    let zeros: u32 = denom.trailing_zeros();
    let exponent: i8 = -(zeros as i8);
    Bridge { negative, numer, exponent }
}

/// The numerator, with the sign, and the denominator of a rational fraction,
/// as an operand of a power; the fraction itself where it is no rational
/// number.
pub fn fraction_values(fr: Fraction) -> (r: Result<Operand, Number>)
    ensures
        match operand_of(Number::Fraction(fr)) {
            Some(o) => r == Ok::<Operand, Number>(o),
            None => r == Err::<Operand, Number>(Number::Fraction(fr)),
        },
{
    match fr.parts() {
        Parts::Rational { negative, numer, denom } => Ok(Operand::Ratio { negative, numer, denom }),
        _ => Err(Number::Fraction(fr)),
    }
}

impl Number {
    /// Pairs two numbers for a binary operation, `self` on the left.
    pub fn dispatch(self, other: Number) -> (r: Outcome)
        ensures
            r == paired(self, other),
    {
        match (self, other) {
            (Number::Decimal(a), Number::Decimal(b)) => Outcome::Pending(
                Task::Doubles { left: a, right: b },
            ),
            (Number::Decimal(d), Number::StandardForm(sf)) => Outcome::Pending(
                Task::StandardFormDouble { left: sf, right: d },
            ),
            (Number::Decimal(d), Number::Fraction(fr)) => Outcome::Pending(
                Task::FractionDouble { left: fr, right: d },
            ),
            (Number::StandardForm(a), Number::StandardForm(b)) => Outcome::Pending(
                Task::StandardForms { left: a, right: b },
            ),
            (Number::StandardForm(sf), Number::Decimal(d)) => Outcome::Pending(
                Task::StandardFormDouble { left: sf, right: d },
            ),
            (Number::StandardForm(sf), Number::Fraction(fr)) => match fr.parts() {
                Parts::Rational { negative, numer, denom } => Outcome::Pending(
                    Task::StandardFormBridge { left: sf, right: bridge(negative, numer, denom) },
                ),
                _ => Outcome::Ready(Number::Fraction(fr)),
            },
            (Number::Fraction(a), Number::Fraction(b)) => Outcome::Pending(
                Task::Fractions { left: a, right: b },
            ),
            (Number::Fraction(fr), Number::Decimal(d)) => Outcome::Pending(
                Task::FractionDouble { left: fr, right: d },
            ),
            (Number::Fraction(fr), Number::StandardForm(sf)) => match fr.parts() {
                Parts::Rational { negative, numer, denom } => Outcome::Pending(
                    Task::BridgeStandardForm { left: bridge(negative, numer, denom), right: sf },
                ),
                _ => Outcome::Ready(Number::Fraction(fr)),
            },
        }
    }

    /// Pairs two numbers for a power, `self` as the base.
    pub fn pow(self, other: Number) -> (r: Power)
        ensures
            r == raised(self, other),
    {
        let base: Operand = match self {
            Number::Decimal(bits) => Operand::Double(bits),
            Number::StandardForm(sf) => Operand::StandardForm(sf),
            Number::Fraction(fr) => match fraction_values(fr) {
                Ok(o) => o,
                Err(n) => {
                    return Power::Ready(n);
                },
            },
        };
        let exponent: Operand = match other {
            Number::Decimal(bits) => Operand::Double(bits),
            Number::StandardForm(sf) => Operand::StandardForm(sf),
            Number::Fraction(fr) => match fraction_values(fr) {
                Ok(o) => o,
                Err(n) => {
                    return Power::Ready(n);
                },
            },
        };
        Power::Pending { base, exponent }
    }

    /// Pairs two numbers for their positive difference.
    pub fn abs_sub(self, other: Number) -> (r: Outcome)
        ensures
            r == positive_difference(self, other),
    {
        let at_most: bool = match self.partial_cmp(&other) {
            Some(core::cmp::Ordering::Less) => true,
            Some(core::cmp::Ordering::Equal) => true,
            _ => false,
        };
        if at_most {
            Outcome::Ready(Number::zero())
        } else {
            self.dispatch(other)
        }
    }
}

/// Ten to the power `k`.
pub open spec fn power_of_ten(k: nat) -> nat
    decreases k,
{
    if k == 0 {
        1
    } else {
        10 * power_of_ten((k - 1) as nat)
    }
}

/// A number has as many trailing zero bits as the place of its lowest set bit.
proof fn lowest_set_bit(i: u32, k: u32)
    requires
        k < 32,
        (i >> k) & 1u32 == 1u32,
        forall|j: u32| j < k ==> #[trigger] ((i >> j) & 1u32) == 0u32,
    ensures
        u32_trailing_zeros(i) == k,
{
    broadcast use vstd::std_specs::bits::group_bits_axioms;

    assert(i != 0) by (bit_vector)
        requires
            k < 32,
            (i >> k) & 1u32 == 1u32,
    ;
    let t: u32 = u32_trailing_zeros(i);
    if t < k {
        assert((i >> t) & 1u32 == 0u32);
    } else if t > k {
        assert((i >> k) & 1u32 == 0u32);
    }
}

/// Over a denominator that is a power of ten the bridge is the fraction: the
/// numerator with the sign, times ten to minus that power. These are the ten
/// denominators from 1 to 1 000 000 000.
pub proof fn bridge_is_exact_over_powers_of_ten(negative: bool, numer: u32, k: nat)
    requires
        k <= 9,
    ensures
        power_of_ten(k) <= u32::MAX,
        bridged(negative, numer, power_of_ten(k) as u32) == (Bridge {
            negative,
            numer,
            exponent: (-(k as int)) as i8,
        }),
{
    reveal_with_fuel(power_of_ten, 11);
    if k == 0 {
        assert((1u32 >> 0u32) & 1u32 == 1u32) by (bit_vector);
        lowest_set_bit(1, 0);
    } else if k == 1 {
        assert((10u32 >> 1u32) & 1u32 == 1u32) by (bit_vector);
        assert(forall|j: u32| j < 1 ==> #[trigger] ((10u32 >> j) & 1u32) == 0u32) by (bit_vector);
        lowest_set_bit(10, 1);
    } else if k == 2 {
        assert((100u32 >> 2u32) & 1u32 == 1u32) by (bit_vector);
        assert(forall|j: u32| j < 2 ==> #[trigger] ((100u32 >> j) & 1u32) == 0u32) by (bit_vector);
        lowest_set_bit(100, 2);
    } else if k == 3 {
        assert((1000u32 >> 3u32) & 1u32 == 1u32) by (bit_vector);
        assert(forall|j: u32| j < 3 ==> #[trigger] ((1000u32 >> j) & 1u32) == 0u32) by (bit_vector);
        lowest_set_bit(1000, 3);
    } else if k == 4 {
        assert((10000u32 >> 4u32) & 1u32 == 1u32) by (bit_vector);
        assert(forall|j: u32| j < 4 ==> #[trigger] ((10000u32 >> j) & 1u32) == 0u32) by (bit_vector);
        lowest_set_bit(10000, 4);
    } else if k == 5 {
        assert((100000u32 >> 5u32) & 1u32 == 1u32) by (bit_vector);
        assert(forall|j: u32| j < 5 ==> #[trigger] ((100000u32 >> j) & 1u32) == 0u32)
            by (bit_vector);
        lowest_set_bit(100000, 5);
    } else if k == 6 {
        assert((1000000u32 >> 6u32) & 1u32 == 1u32) by (bit_vector);
        assert(forall|j: u32| j < 6 ==> #[trigger] ((1000000u32 >> j) & 1u32) == 0u32)
            by (bit_vector);
        lowest_set_bit(1000000, 6);
    } else if k == 7 {
        assert((10000000u32 >> 7u32) & 1u32 == 1u32) by (bit_vector);
        assert(forall|j: u32| j < 7 ==> #[trigger] ((10000000u32 >> j) & 1u32) == 0u32)
            by (bit_vector);
        lowest_set_bit(10000000, 7);
    } else if k == 8 {
        assert((100000000u32 >> 8u32) & 1u32 == 1u32) by (bit_vector);
        assert(forall|j: u32| j < 8 ==> #[trigger] ((100000000u32 >> j) & 1u32) == 0u32)
            by (bit_vector);
        lowest_set_bit(100000000, 8);
    } else {
        assert((1000000000u32 >> 9u32) & 1u32 == 1u32) by (bit_vector);
        assert(forall|j: u32| j < 9 ==> #[trigger] ((1000000000u32 >> j) & 1u32) == 0u32)
            by (bit_vector);
        lowest_set_bit(1000000000, 9);
    }
}

/// With a number of another representation a double is the right operand on
/// whichever side it stood: the two orders pair alike, also for the
/// operations that do not commute.
pub proof fn a_double_gives_way(d: u64, other: Number)
    requires
        !(other is Decimal),
    ensures
        paired(Number::Decimal(d), other) == paired(other, Number::Decimal(d)),
        paired(other, Number::Decimal(d)) matches Outcome::Pending(task) && match other {
            Number::StandardForm(sf) => task == (Task::StandardFormDouble { left: sf, right: d }),
            Number::Fraction(fr) => task == (Task::FractionDouble { left: fr, right: d }),
            Number::Decimal(_) => false,
        },
{
}

/// A number in standard form and a fraction meet in standard form where the
/// fraction is rational, each on its own side; a fraction that is not is the
/// result, and the number in standard form is dropped.
pub proof fn standard_form_meets_fraction(sf: StandardForm, fr: Fraction)
    ensures
        fr@ is Rational ==> (paired(Number::StandardForm(sf), Number::Fraction(fr))
            matches Outcome::Pending(Task::StandardFormBridge { left, .. }) && left == sf),
        fr@ is Rational ==> (paired(Number::Fraction(fr), Number::StandardForm(sf))
            matches Outcome::Pending(Task::BridgeStandardForm { right, .. }) && right == sf),
        !(fr@ is Rational) ==> paired(Number::StandardForm(sf), Number::Fraction(fr))
            == Outcome::Ready(Number::Fraction(fr)),
        !(fr@ is Rational) ==> paired(Number::Fraction(fr), Number::StandardForm(sf))
            == Outcome::Ready(Number::Fraction(fr)),
{
}

/// Two doubles meet as doubles, unchanged and in their order: whatever the
/// operation, the result is what the arithmetic of doubles gives for them.
pub proof fn doubles_meet_as_doubles(a: u64, b: u64)
    ensures
        paired(Number::Decimal(a), Number::Decimal(b)) == Outcome::Pending(
            Task::Doubles { left: a, right: b },
        ),
        raised(Number::Decimal(a), Number::Decimal(b)) == (Power::Pending {
            base: Operand::Double(a),
            exponent: Operand::Double(b),
        }),
{
}

} // verus!
