//! Rational fractions over 32-bit numerators and denominators.
//!
//! The values are `fraction::GenericFraction<u32>`, and that crate does all
//! the work on them. This module says what such a value holds, and gives each
//! operation of the crate that the library calls a contract over that. None of
//! these contracts is proved here: each states what the crate's source does.
use core::cmp::Ordering;
use fraction::error::ParseError;
use fraction::GenericFraction;
use vstd::prelude::*;
use crate::double::order_of;

verus! {

/// A fraction of the `fraction` crate.
///
/// The field is private and every value is made by that crate from a
/// numerator and a denominator, from text, or from another such value: a
/// rational one always has a denominator of at least 1.
#[verifier::external_body]
#[derive(Debug)]
pub struct Fraction {
    inner: GenericFraction<u32>,
}

/// What a fraction holds: a sign with a numerator over a denominator, or one of
/// the states that are no rational number.
#[derive(Clone, Copy, Debug, PartialEq, Eq, Structural)]
pub enum Parts {
    Rational { negative: bool, numer: u32, denom: u32 },
    Infinity { negative: bool },
    NaN,
}

/// The variant of the value and what `Ratio::numer` and `Ratio::denom` give
/// for it.
pub uninterp spec fn fraction_parts(fr: Fraction) -> Parts;

/// The fraction that `GenericFraction::<u32>::from_str` reads in the whole of
/// a text, or the failure that it reports.
pub uninterp spec fn fraction_of_text(s: Seq<char>) -> Result<Parts, ParseError>;

impl View for Fraction {
    type V = Parts;

    open spec fn view(&self) -> Parts {
        fraction_parts(*self)
    }
}

/// The greatest common divisor, by Euclid; of 0 and 0 it is 0.
pub open spec fn gcd(a: nat, b: nat) -> nat
    decreases b,
{
    if b == 0 {
        a
    } else {
        gcd(b, a % b)
    }
}

/// A rational value never has the denominator 0.
pub open spec fn well_formed(p: Parts) -> bool {
    p matches Parts::Rational { denom, .. } ==> denom > 0
}

/// The fraction of a sign, a numerator and a denominator: in lowest terms
/// where the denominator is not 0; over 0 it is infinite with that sign, and
/// 0 over 0 is no number.
pub open spec fn reduced(negative: bool, numer: u32, denom: u32) -> Parts {
    if denom == 0 {
        if numer == 0 {
            Parts::NaN
        } else {
            Parts::Infinity { negative }
        }
    } else {
        Parts::Rational {
            negative,
            numer: (numer as nat / gcd(numer as nat, denom as nat)) as u32,
            denom: (denom as nat / gcd(numer as nat, denom as nat)) as u32,
        }
    }
}

/// The fraction with the opposite sign. Zero comes out positive, and what is
/// no number stays so.
pub open spec fn negated(p: Parts) -> Parts {
    match p {
        Parts::NaN => Parts::NaN,
        Parts::Infinity { negative } => Parts::Infinity { negative: !negative },
        Parts::Rational { negative, numer, denom } => Parts::Rational {
            negative: numer != 0 && !negative,
            numer,
            denom,
        },
    }
}

/// The fraction without its sign.
pub open spec fn absolute(p: Parts) -> Parts {
    match p {
        Parts::NaN => Parts::NaN,
        Parts::Infinity { .. } => Parts::Infinity { negative: false },
        Parts::Rational { numer, denom, .. } => Parts::Rational { negative: false, numer, denom },
    }
}

/// Whether the fraction carries a plus sign; what is no number carries none.
pub open spec fn positive(p: Parts) -> bool {
    match p {
        Parts::NaN => false,
        Parts::Infinity { negative } => !negative,
        Parts::Rational { negative, .. } => !negative,
    }
}

/// Whether the fraction carries a minus sign; what is no number carries none.
pub open spec fn negative(p: Parts) -> bool {
    match p {
        Parts::NaN => false,
        Parts::Infinity { negative } => negative,
        Parts::Rational { negative, .. } => negative,
    }
}

/// Equality of two fractions: the same rational number, zero with either sign
/// being one number; the same infinity; and what is no number equals itself.
pub open spec fn same(a: Parts, b: Parts) -> bool {
    match (a, b) {
        (Parts::NaN, Parts::NaN) => true,
        (Parts::Infinity { negative: s }, Parts::Infinity { negative: t }) => s == t,
        (
            Parts::Rational { negative: s, numer: n, denom: d },
            Parts::Rational { negative: t, numer: m, denom: e },
        ) => if s == t {
            n * e == m * d
        } else {
            n == 0 && m == 0
        },
        _ => false,
    }
}

/// The total order of fractions: what is no number comes first, then minus
/// infinity, the rational numbers by their value, and plus infinity.
pub open spec fn order(a: Parts, b: Parts) -> Ordering {
    match (a, b) {
        (Parts::NaN, Parts::NaN) => Ordering::Equal,
        (Parts::NaN, _) => Ordering::Less,
        (_, Parts::NaN) => Ordering::Greater,
        (Parts::Infinity { negative: s }, Parts::Infinity { negative: t }) => if s == t {
            Ordering::Equal
        } else if s {
            Ordering::Less
        } else {
            Ordering::Greater
        },
        (Parts::Infinity { negative }, Parts::Rational { .. }) => if negative {
            Ordering::Less
        } else {
            Ordering::Greater
        },
        (Parts::Rational { .. }, Parts::Infinity { negative }) => if negative {
            Ordering::Greater
        } else {
            Ordering::Less
        },
        (
            Parts::Rational { negative: s, numer: n, denom: d },
            Parts::Rational { negative: t, numer: m, denom: e },
        ) => if s == t {
            if s {
                order_of(m * d, n * e)
            } else {
                order_of(n * e, m * d)
            }
        } else if n == 0 && m == 0 {
            Ordering::Equal
        } else if s {
            Ordering::Less
        } else {
            Ordering::Greater
        },
    }
}

/// The order of fractions is transitive, where no denominator is 0.
pub proof fn order_is_transitive(a: Parts, b: Parts, c: Parts)
    requires
        well_formed(a),
        well_formed(b),
        well_formed(c),
        order(a, b) == Ordering::Less || order(a, b) == Ordering::Equal,
        order(b, c) == Ordering::Less || order(b, c) == Ordering::Equal,
    ensures
        order(a, c) == Ordering::Less || order(a, c) == Ordering::Equal,
{
    match (a, b, c) {
        (
            Parts::Rational { negative: s, numer: n, denom: d },
            Parts::Rational { negative: t, numer: m, denom: e },
            Parts::Rational { negative: u, numer: k, denom: f },
        ) => {
            products_are_transitive(n, d, m, e, k, f);
            products_are_transitive(k, f, m, e, n, d);
            assert(n == 0 ==> n * e == 0 && n * f == 0) by (nonlinear_arith);
            assert(m == 0 ==> m * d == 0 && m * f == 0) by (nonlinear_arith);
            assert(k == 0 ==> k * d == 0 && k * e == 0) by (nonlinear_arith);
            assert(n > 0 && e > 0 && f > 0 ==> n * e > 0 && n * f > 0) by (nonlinear_arith);
            assert(m > 0 && d > 0 && f > 0 ==> m * d > 0 && m * f > 0) by (nonlinear_arith);
            assert(k > 0 && d > 0 && e > 0 ==> k * d > 0 && k * e > 0) by (nonlinear_arith);
        },
        _ => {},
    }
}

/// Cross products of fractions with positive denominators chain: from
/// `n / d <= m / e` and `m / e <= k / f` follows `n / d <= k / f`.
proof fn products_are_transitive(n: u32, d: u32, m: u32, e: u32, k: u32, f: u32)
    requires
        d > 0,
        e > 0,
        f > 0,
    ensures
        n * e <= m * d && m * f <= k * e ==> n * f <= k * d,
{
    if n * e <= m * d && m * f <= k * e {
        assert((n * e) * f <= (m * d) * f) by (nonlinear_arith)
            requires
                n * e <= m * d,
                f > 0,
        ;
        assert((m * f) * d <= (k * e) * d) by (nonlinear_arith)
            requires
                m * f <= k * e,
                d > 0,
        ;
        assert((m * d) * f == (m * f) * d) by (nonlinear_arith);
        assert((n * e) * f == (n * f) * e) by (nonlinear_arith);
        assert((k * e) * d == (k * d) * e) by (nonlinear_arith);
        assert(n * f <= k * d) by (nonlinear_arith)
            requires
                (n * f) * e <= (k * d) * e,
                e > 0,
        ;
    }
}

/// The greatest common divisor of two numbers that are not both 0 is not 0.
pub proof fn gcd_is_positive(a: nat, b: nat)
    requires
        a > 0 || b > 0,
    ensures
        gcd(a, b) > 0,
    decreases b,
{
    if b != 0 {
        gcd_is_positive(b, a % b);
    }
}

/// The greatest common divisor divides both numbers.
pub proof fn gcd_divides(a: nat, b: nat)
    requires
        a > 0 || b > 0,
    ensures
        a % gcd(a, b) == 0,
        b % gcd(a, b) == 0,
    decreases b,
{
    let g = gcd(a, b) as int;
    gcd_is_positive(a, b);
    if b == 0 {
        vstd::arithmetic::div_mod::lemma_mod_self_0(a as int);
        assert(0int % g == 0) by (nonlinear_arith)
            requires
                g > 0,
        ;
    } else {
        let r = (a % b) as int;
        let q = (a / b) as int;
        gcd_divides(b, a % b);
        vstd::arithmetic::div_mod::lemma_fundamental_div_mod(a as int, b as int);
        vstd::arithmetic::div_mod::lemma_fundamental_div_mod(b as int, g);
        vstd::arithmetic::div_mod::lemma_fundamental_div_mod(r, g);
        let x = b as int / g;
        let y = r / g;
        assert(a as int == (x * q + y) * g) by (nonlinear_arith)
            requires
                a as int == (b as int) * q + r,
                b as int == g * x,
                r == g * y,
        ;
        vstd::arithmetic::div_mod::lemma_mod_multiples_basic(x * q + y, g);
    }
}

/// A common factor of two numbers is a factor of their greatest common
/// divisor.
pub proof fn gcd_scales(k: nat, a: nat, b: nat)
    requires
        k > 0,
    ensures
        gcd(k * a, k * b) == k * gcd(a, b),
    decreases b,
{
    if b == 0 {
        assert(k * b == 0) by (nonlinear_arith)
            requires
                b == 0,
        ;
    } else {
        assert(k * b > 0) by (nonlinear_arith)
            requires
                k > 0,
                b > 0,
        ;
        vstd::arithmetic::div_mod::lemma_truncate_middle(a as int, k as int, b as int);
        gcd_scales(k, b, a % b);
    }
}

/// Over a denominator that is not 0 the fraction that is made is rational with
/// the given sign, has the value of the two numbers, and is in lowest terms:
/// its numerator and its denominator have no common divisor but 1.
pub proof fn reduced_is_in_lowest_terms(negative: bool, numer: u32, denom: u32)
    requires
        denom > 0,
    ensures
        reduced(negative, numer, denom) matches Parts::Rational { negative: s, numer: n, denom: d }
            && s == negative && d > 0 && n * denom == numer * d && gcd(n as nat, d as nat) == 1,
        well_formed(reduced(negative, numer, denom)),
{
    let g = gcd(numer as nat, denom as nat);
    gcd_is_positive(numer as nat, denom as nat);
    gcd_divides(numer as nat, denom as nat);
    let n = numer as nat / g;
    let d = denom as nat / g;
    vstd::arithmetic::div_mod::lemma_fundamental_div_mod(numer as int, g as int);
    vstd::arithmetic::div_mod::lemma_fundamental_div_mod(denom as int, g as int);
    assert(n <= numer && d <= denom && d > 0) by (nonlinear_arith)
        requires
            numer == g * n,
            denom == g * d,
            g > 0,
            denom > 0,
    ;
    gcd_scales(g, n, d);
    assert(gcd(n, d) == 1) by (nonlinear_arith)
        requires
            g == g * gcd(n, d),
            g > 0,
    ;
    assert(n * denom == numer * d) by (nonlinear_arith)
        requires
            numer == g * n,
            denom == g * d,
    ;
}

/// Two numbers with no common divisor but 1 make the fraction of just these
/// two numbers.
pub proof fn lowest_terms_are_kept(negative: bool, numer: u32, denom: u32)
    requires
        denom > 0,
        gcd(numer as nat, denom as nat) == 1,
    ensures
        reduced(negative, numer, denom) == (Parts::Rational { negative, numer, denom }),
{
}

/// Zero over one and one over one are in lowest terms already.
pub proof fn units_are_plain()
    ensures
        reduced(false, 0, 1) == (Parts::Rational { negative: false, numer: 0, denom: 1 }),
        reduced(false, 1, 1) == (Parts::Rational { negative: false, numer: 1, denom: 1 }),
{
    reveal_with_fuel(gcd, 3);
    assert(gcd(0, 1) == 1);
}

/// What equals zero over one is a rational zero of either sign, and what
/// equals one over one is a positive fraction whose numerator is its
/// denominator.
pub proof fn same_as_unit(p: Parts)
    ensures
        same(p, Parts::Rational { negative: false, numer: 0, denom: 1 }) <==> (p matches Parts::Rational {
            numer,
            ..
        } && numer == 0),
        same(p, Parts::Rational { negative: false, numer: 1, denom: 1 }) <==> (p matches Parts::Rational {
            negative,
            numer,
            denom,
        } && !negative && numer == denom),
{
    if let Parts::Rational { negative, numer, denom } = p {
        assert(numer * 1 == numer) by (nonlinear_arith);
        assert(0 * denom == 0) by (nonlinear_arith);
        assert(1 * denom == denom) by (nonlinear_arith);
    }
}

/// Tells the variants of `GenericFraction` apart and reads `Sign::is_negative`,
/// `Ratio::numer` and `Ratio::denom`. That the denominator of a rational value
/// is not 0 is how the crate makes its values: over 0 it makes an infinity or
/// no number.
#[verifier::external_body]
fn read(fr: &Fraction) -> (r: Parts)
    ensures
        r == fraction_parts(*fr),
        well_formed(r),
{
    match &fr.inner {
        GenericFraction::Rational(sign, ratio) => Parts::Rational {
            negative: sign.is_negative(),
            numer: *ratio.numer(),
            denom: *ratio.denom(),
        },
        GenericFraction::Infinity(sign) => Parts::Infinity { negative: sign.is_negative() },
        GenericFraction::NaN => Parts::NaN,
    }
}

/// `GenericFraction::new`: the crate divides both numbers by their greatest
/// common divisor; over 0 it makes plus infinity, and of 0 over 0 no number.
#[verifier::external_body]
fn make(numer: u32, denom: u32) -> (r: Fraction)
    ensures
        fraction_parts(r) == reduced(false, numer, denom),
{
    Fraction { inner: GenericFraction::new(numer, denom) }
}

/// `GenericFraction::new_neg`: as `GenericFraction::new`, with a minus sign.
#[verifier::external_body]
fn make_negative(numer: u32, denom: u32) -> (r: Fraction)
    ensures
        fraction_parts(r) == reduced(true, numer, denom),
{
    Fraction { inner: GenericFraction::new_neg(numer, denom) }
}

/// `Neg::neg` of `GenericFraction`: the crate turns the sign over, but for
/// zero, which it makes positive, and for what is no number.
#[verifier::external_body]
fn opposite(fr: Fraction) -> (r: Fraction)
    ensures
        fraction_parts(r) == negated(fraction_parts(fr)),
{
    Fraction { inner: -fr.inner }
}

/// `Signed::abs` of `GenericFraction`: the crate sets the sign to plus.
#[verifier::external_body]
fn unsigned(fr: &Fraction) -> (r: Fraction)
    ensures
        fraction_parts(r) == absolute(fraction_parts(*fr)),
{
    Fraction { inner: fraction::Signed::abs(&fr.inner) }
}

/// `Signed::is_positive` of `GenericFraction`: the crate asks for a plus sign.
#[verifier::external_body]
fn has_plus(fr: &Fraction) -> (r: bool)
    ensures
        r == positive(fraction_parts(*fr)),
{
    fraction::Signed::is_positive(&fr.inner)
}

/// `Signed::is_negative` of `GenericFraction`: the crate asks for a minus
/// sign.
#[verifier::external_body]
fn has_minus(fr: &Fraction) -> (r: bool)
    ensures
        r == negative(fraction_parts(*fr)),
{
    fraction::Signed::is_negative(&fr.inner)
}

/// `PartialEq::eq` of `GenericFraction`: the crate compares two rational
/// values of one sign as numbers, takes two zeros of different sign for equal,
/// and compares the other states by variant and sign. With a denominator of 0
/// the comparison of the crate divides by it.
#[verifier::external_body]
fn equal(a: &Fraction, b: &Fraction) -> (r: bool)
    requires
        well_formed(fraction_parts(*a)),
        well_formed(fraction_parts(*b)),
    ensures
        r == same(fraction_parts(*a), fraction_parts(*b)),
{
    a.inner == b.inner
}

/// `PartialOrd::partial_cmp` of `GenericFraction`: the crate always gives the
/// result of its total order. With a denominator of 0 the comparison of the
/// crate divides by it.
#[verifier::external_body]
fn compare(a: &Fraction, b: &Fraction) -> (r: Option<Ordering>)
    requires
        well_formed(fraction_parts(*a)),
        well_formed(fraction_parts(*b)),
    ensures
        r == Some(order(fraction_parts(*a), fraction_parts(*b))),
{
    a.inner.partial_cmp(&b.inner)
}

/// `GenericFraction::<u32>::from_str`: the contract claims nothing but that the
/// outcome depends on the text alone.
#[verifier::external_body]
fn read_text(text: &str) -> (r: Result<Fraction, ParseError>)
    ensures
        match r {
            Ok(fr) => fraction_of_text(text@) == Ok::<Parts, ParseError>(fraction_parts(fr)),
            Err(e) => fraction_of_text(text@) == Err::<Parts, ParseError>(e),
        },
{
    match text.parse::<GenericFraction<u32>>() {
        Ok(inner) => Ok(Fraction { inner }),
        Err(e) => Err(e),
    }
}

impl Fraction {
    /// Reads the whole of a text as a fraction, in the notations of the
    /// `fraction` crate.
    pub fn parse(text: &str) -> (r: Result<Fraction, ParseError>)
        ensures
            match r {
                Ok(fr) => fraction_of_text(text@) == Ok::<Parts, ParseError>(fr@),
                Err(e) => fraction_of_text(text@) == Err::<Parts, ParseError>(e),
            },
    {
        read_text(text)
    }

    /// The fraction `numer / denom` in lowest terms.
    pub fn new(numer: u32, denom: u32) -> (r: Fraction)
        ensures
            r@ == reduced(false, numer, denom),
    {
        make(numer, denom)
    }

    /// The fraction `-numer / denom` in lowest terms.
    pub fn new_neg(numer: u32, denom: u32) -> (r: Fraction)
        ensures
            r@ == reduced(true, numer, denom),
    {
        make_negative(numer, denom)
    }

    /// What the fraction holds.
    pub fn parts(&self) -> (r: Parts)
        ensures
            r == self@,
            well_formed(r),
    {
        read(self)
    }

    /// The fraction with the opposite sign.
    pub fn neg(self) -> (r: Fraction)
        ensures
            r@ == negated(self@),
    {
        opposite(self)
    }

    /// The fraction without its sign.
    pub fn abs(&self) -> (r: Fraction)
        ensures
            r@ == absolute(self@),
    {
        unsigned(self)
    }

    /// Whether the fraction carries a plus sign.
    pub fn is_positive(&self) -> (r: bool)
        ensures
            r == positive(self@),
    {
        has_plus(self)
    }

    /// Whether the fraction carries a minus sign.
    pub fn is_negative(&self) -> (r: bool)
        ensures
            r == negative(self@),
    {
        has_minus(self)
    }

    /// The total order of fractions.
    pub fn total_order(&self, other: &Fraction) -> (r: Ordering)
        ensures
            r == order(self@, other@),
    {
        let _ = read(self);
        let _ = read(other);
        match compare(self, other) {
            Some(o) => o,
            None => Ordering::Equal,
        }
    }
}

impl Clone for Fraction {
    fn clone(&self) -> (r: Fraction)
        ensures
            r == *self,
    {
        *self
    }
}

impl Copy for Fraction {

}

impl PartialEq for Fraction {
    fn eq(&self, other: &Fraction) -> (r: bool) {
        let _ = read(self);
        let _ = read(other);
        equal(self, other)
    }
}

impl vstd::std_specs::cmp::PartialEqSpecImpl for Fraction {
    open spec fn obeys_eq_spec() -> bool {
        true
    }

    open spec fn eq_spec(&self, other: &Fraction) -> bool {
        same(self@, other@)
    }
}

} // verus!
