use fraction::GenericFraction;
use number_general::double;
use number_general::rational::{Fraction, Parts};
use number_general::Number;
use standardform::StandardForm;
use std::cmp::Ordering;

fn standard_forms() -> Vec<StandardForm> {
    let mut all = Vec::new();
    for mantissa in [0.0, -0.0, 1.0, -1.0, 2.5, -2.5, 9.99, 10.0, -10.0, 1e-7, 123456.0] {
        for exponent in [-100i8, -3, 0, 1, 4, 100] {
            all.push(StandardForm::new(mantissa, exponent));
        }
    }
    all
}

fn fractions() -> Vec<(bool, u32, u32)> {
    let mut all = Vec::new();
    for negative in [false, true] {
        for numer in [0u32, 1, 2, 3, 10, 4294967295] {
            for denom in [0u32, 1, 2, 3, 7, 1000, 4294967295] {
                all.push((negative, numer, denom));
            }
        }
    }
    all
}

fn ours(value: (bool, u32, u32)) -> Fraction {
    if value.0 {
        Fraction::new_neg(value.1, value.2)
    } else {
        Fraction::new(value.1, value.2)
    }
}

fn theirs(value: (bool, u32, u32)) -> GenericFraction<u32> {
    if value.0 {
        GenericFraction::new_neg(value.1, value.2)
    } else {
        GenericFraction::new(value.1, value.2)
    }
}

fn parts_of(fr: &GenericFraction<u32>) -> Parts {
    match fr {
        GenericFraction::Rational(sign, ratio) => Parts::Rational {
            negative: sign.is_negative(),
            numer: *ratio.numer(),
            denom: *ratio.denom(),
        },
        GenericFraction::Infinity(sign) => Parts::Infinity { negative: sign.is_negative() },
        GenericFraction::NaN => Parts::NaN,
    }
}

fn gcd(a: u64, b: u64) -> u64 {
    if b == 0 {
        a
    } else {
        gcd(b, a % b)
    }
}

fn order_of(x: u64, y: u64) -> Ordering {
    if x < y {
        Ordering::Less
    } else if x == y {
        Ordering::Equal
    } else {
        Ordering::Greater
    }
}

fn expected_order(a: Parts, b: Parts) -> Ordering {
    match (a, b) {
        (Parts::NaN, Parts::NaN) => Ordering::Equal,
        (Parts::NaN, _) => Ordering::Less,
        (_, Parts::NaN) => Ordering::Greater,
        (Parts::Infinity { negative: s }, Parts::Infinity { negative: t }) => {
            if s == t {
                Ordering::Equal
            } else if s {
                Ordering::Less
            } else {
                Ordering::Greater
            }
        }
        (Parts::Infinity { negative }, Parts::Rational { .. }) => {
            if negative {
                Ordering::Less
            } else {
                Ordering::Greater
            }
        }
        (Parts::Rational { .. }, Parts::Infinity { negative }) => {
            if negative {
                Ordering::Greater
            } else {
                Ordering::Less
            }
        }
        (
            Parts::Rational { negative: s, numer: n, denom: d },
            Parts::Rational { negative: t, numer: m, denom: e },
        ) => {
            let (left, right) = (n as u64 * e as u64, m as u64 * d as u64);
            if s == t {
                if s {
                    order_of(right, left)
                } else {
                    order_of(left, right)
                }
            } else if n == 0 && m == 0 {
                Ordering::Equal
            } else if s {
                Ordering::Less
            } else {
                Ordering::Greater
            }
        }
    }
}

#[test]
fn fractions_are_made_in_lowest_terms() {
    for (negative, numer, denom) in fractions() {
        let parts = ours((negative, numer, denom)).parts();
        let expected = if denom == 0 {
            if numer == 0 {
                Parts::NaN
            } else {
                Parts::Infinity { negative }
            }
        } else {
            let g = gcd(numer as u64, denom as u64);
            Parts::Rational {
                negative,
                numer: (numer as u64 / g) as u32,
                denom: (denom as u64 / g) as u32,
            }
        };
        assert_eq!(parts, expected);
        assert_eq!(parts, parts_of(&theirs((negative, numer, denom))));
    }
}

#[test]
fn fractions_are_never_over_zero() {
    for value in fractions() {
        if let Parts::Rational { denom, .. } = ours(value).parts() {
            assert!(denom > 0);
        }
        if let Parts::Rational { denom, .. } = ours(value).neg().abs().parts() {
            assert!(denom > 0);
        }
    }
}

#[test]
fn fraction_signs_are_those_of_the_crate() {
    for value in fractions() {
        let (a, x) = (ours(value), theirs(value));
        assert_eq!(a.neg().parts(), parts_of(&-x));
        assert_eq!(a.abs().parts(), parts_of(&x.abs()));
        assert_eq!(a.is_positive(), x.is_sign_positive());
        assert_eq!(a.is_negative(), x.is_sign_negative());
        let negated = match a.parts() {
            Parts::NaN => Parts::NaN,
            Parts::Infinity { negative } => Parts::Infinity { negative: !negative },
            Parts::Rational { negative, numer, denom } => {
                Parts::Rational { negative: numer != 0 && !negative, numer, denom }
            }
        };
        assert_eq!(a.neg().parts(), negated);
    }
}

#[test]
fn fraction_order_is_by_cross_products() {
    for left in fractions() {
        for right in fractions() {
            let (a, b) = (ours(left), ours(right));
            let expected = expected_order(a.parts(), b.parts());
            assert_eq!(a.total_order(&b), expected, "{:?} {:?}", left, right);
            assert_eq!(a == b, expected == Ordering::Equal, "{:?} {:?}", left, right);
            assert_eq!(
                Number::Fraction(a).partial_cmp(&Number::Fraction(b)),
                Some(expected),
                "{:?} {:?}",
                left,
                right
            );
        }
    }
}

#[test]
fn standard_form_signs_are_those_of_the_mantissa() {
    for sf in standard_forms() {
        let bits = sf.mantissa().to_bits();
        let number = Number::StandardForm(sf.clone());
        assert_eq!(number.is_positive(), !double::is_sign_negative(bits));
        assert_eq!(number.is_negative(), double::is_sign_negative(bits));
        match number.clone().neg() {
            Number::StandardForm(negated) => {
                assert_eq!(negated.mantissa().to_bits(), double::negate(bits));
                assert_eq!(negated.exponent(), sf.exponent());
            }
            other => panic!("{:?}", other),
        }
        match number.abs() {
            Number::StandardForm(absolute) => {
                assert_eq!(absolute.mantissa().to_bits(), double::abs(bits));
                assert_eq!(absolute.exponent(), sf.exponent());
            }
            other => panic!("{:?}", other),
        }
    }
}

#[test]
fn standard_form_order_is_by_exponent_then_mantissa() {
    for a in standard_forms() {
        for b in standard_forms() {
            let (m, n) = (a.mantissa().to_bits(), b.mantissa().to_bits());
            let (e, f) = (*a.exponent(), *b.exponent());
            let expected = if e == f { double::compare(m, n) } else { Some(e.cmp(&f)) };
            let (x, y) = (Number::StandardForm(a.clone()), Number::StandardForm(b.clone()));
            assert_eq!(x.partial_cmp(&y), expected);
            assert_eq!(x == y, double::equal(m, n) && e == f);
        }
    }
}

#[test]
fn standard_form_zero_and_one() {
    for sf in standard_forms() {
        let bits = sf.mantissa().to_bits();
        let exponent = *sf.exponent();
        let number = Number::StandardForm(sf);
        assert_eq!(number.is_zero(), double::is_zero(bits) && exponent == 0);
        assert_eq!(number.is_one(), bits == double::ONE && exponent == 0);
    }
}

#[test]
fn fraction_zero_and_one() {
    for value in fractions() {
        let fr = ours(value);
        let number = Number::Fraction(fr);
        match fr.parts() {
            Parts::Rational { negative, numer, denom } => {
                assert_eq!(number.is_zero(), numer == 0);
                assert_eq!(number.is_one(), !negative && numer == denom);
            }
            _ => {
                assert!(!number.is_zero());
                assert!(!number.is_one());
            }
        }
    }
}
