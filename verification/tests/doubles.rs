use number_general::double;
use ordered_float::OrderedFloat;
use std::cmp::Ordering;
use std::collections::hash_map::DefaultHasher;
use std::hash::{Hash, Hasher};

fn hashed<T: Hash>(value: T) -> u64 {
    let mut hasher = DefaultHasher::new();
    value.hash(&mut hasher);
    hasher.finish()
}

fn samples() -> Vec<f64> {
    vec![
        0.0,
        -0.0,
        1.0,
        -1.0,
        0.5,
        -0.5,
        3.14,
        -3.14,
        1e300,
        -1e300,
        f64::MIN_POSITIVE,
        -f64::MIN_POSITIVE,
        5e-324,
        -5e-324,
        f64::MAX,
        f64::MIN,
        f64::INFINITY,
        f64::NEG_INFINITY,
        f64::NAN,
        -f64::NAN,
        f64::from_bits(0x7FF0_0000_0000_0001),
        f64::from_bits(0xFFFF_FFFF_FFFF_FFFF),
    ]
}

#[test]
fn constants_are_the_patterns() {
    assert_eq!(double::ZERO, 0f64.to_bits());
    assert_eq!(double::ONE, 1f64.to_bits());
    assert_eq!(double::MINUS_ONE, (-1f64).to_bits());
    assert_eq!(double::INFINITY, f64::INFINITY.to_bits());
    assert_eq!(double::SIGN, (-0f64).to_bits());
}

#[test]
fn sign_is_the_sign_of_the_double() {
    for x in samples() {
        assert_eq!(double::is_sign_negative(x.to_bits()), x.is_sign_negative(), "{}", x);
    }
}

#[test]
fn negation_is_that_of_the_double() {
    for x in samples() {
        assert_eq!(double::negate(x.to_bits()), (-x).to_bits(), "{}", x);
    }
}

#[test]
fn absolute_value_is_that_of_the_double() {
    for x in samples() {
        assert_eq!(double::abs(x.to_bits()), x.abs().to_bits(), "{}", x);
        assert_eq!(double::abs(x.to_bits()), num_traits::Signed::abs(&x).to_bits(), "{}", x);
    }
}

#[test]
fn not_a_number_is_told() {
    for x in samples() {
        assert_eq!(double::is_nan(x.to_bits()), x.is_nan(), "{}", x);
    }
}

#[test]
fn zero_is_told() {
    for x in samples() {
        assert_eq!(double::is_zero(x.to_bits()), x == 0.0, "{}", x);
    }
}

#[test]
fn equality_is_that_of_doubles() {
    for x in samples() {
        for y in samples() {
            assert_eq!(double::equal(x.to_bits(), y.to_bits()), x == y, "{} {}", x, y);
        }
    }
}

#[test]
fn order_is_that_of_doubles() {
    for x in samples() {
        for y in samples() {
            assert_eq!(double::compare(x.to_bits(), y.to_bits()), x.partial_cmp(&y), "{} {}", x, y);
        }
    }
}

#[test]
fn order_of_chosen_doubles() {
    assert_eq!(double::compare(1f64.to_bits(), 2f64.to_bits()), Some(Ordering::Less));
    assert_eq!(double::compare((-1f64).to_bits(), (-2f64).to_bits()), Some(Ordering::Greater));
    assert_eq!(double::compare(0f64.to_bits(), (-0f64).to_bits()), Some(Ordering::Equal));
    assert_eq!(double::compare(f64::NAN.to_bits(), 1f64.to_bits()), None);
    assert_eq!(double::compare(f64::NAN.to_bits(), f64::NAN.to_bits()), None);
}

#[test]
fn hashing_pattern_is_that_of_an_ordered_float() {
    for x in samples() {
        assert_eq!(hashed(double::canonical_bits(x.to_bits())), hashed(OrderedFloat(x)), "{}", x);
    }
}

#[test]
fn hashing_pattern_of_chosen_doubles() {
    assert_eq!(double::canonical_bits((-0f64).to_bits()), 0f64.to_bits());
    assert_eq!(double::canonical_bits(0f64.to_bits()), 0f64.to_bits());
    assert_eq!(double::canonical_bits((-f64::NAN).to_bits()), 0x7FF8_0000_0000_0000);
    assert_eq!(double::canonical_bits(0x7FF0_0000_0000_0001), 0x7FF8_0000_0000_0000);
    assert_eq!(double::canonical_bits(3.14f64.to_bits()), 3.14f64.to_bits());
    assert_eq!(double::canonical_bits((-3.14f64).to_bits()), (-3.14f64).to_bits());
    assert_eq!(double::canonical_bits(f64::NEG_INFINITY.to_bits()), f64::NEG_INFINITY.to_bits());
}

#[test]
fn equal_doubles_have_one_hashing_pattern() {
    for x in samples() {
        for y in samples() {
            let alike = double::canonical_bits(x.to_bits()) == double::canonical_bits(y.to_bits());
            assert_eq!(alike, x == y || (x.is_nan() && y.is_nan()), "{} {}", x, y);
        }
    }
}
