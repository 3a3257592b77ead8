//! Numbers at the head of a text.
//!
//! A number is looked for at the start of the text, and what follows it is
//! handed back. Three notations are tried in turn: a fraction, a number in
//! standard form with its exponent written out, a decimal literal. The grammar
//! of fractions is this module's own: an optional minus sign, digits, a slash,
//! digits. The grammar of standard form is the `standardform` crate's, and the
//! caller hands in what it made of the text; the decimal literal is read by
//! `nom`.
use standardform::StandardForm;
use vstd::prelude::*;
use vstd::string::StrSliceExecFns;
use crate::number::Number;
use crate::rational::{reduced, Fraction};

verus! {

/// The ten decimal digits.
pub open spec fn is_digit(c: char) -> bool {
    '0' <= c <= '9'
}

/// Where the run of digits that starts at `from` ends: the first place at or
/// after it that holds no digit.
pub open spec fn digits_end(s: Seq<char>, from: int) -> int
    decreases s.len() - from,
{
    if 0 <= from < s.len() && is_digit(s[from]) {
        digits_end(s, from + 1)
    } else {
        from
    }
}

/// The number that the digits from `from` up to `to` write in base ten.
pub open spec fn decimal(s: Seq<char>, from: int, to: int) -> nat
    decreases to - from,
{
    if from >= to {
        0
    } else {
        decimal(s, from, to - 1) * 10 + (s[to - 1] as u32 - '0' as u32) as nat
    }
}

/// A fraction as it is written: its sign, the two numbers, and how many
/// characters it takes.
pub struct Written {
    pub negative: bool,
    pub numer: u32,
    pub denom: u32,
    pub len: nat,
}

/// The fraction written at the head of the text, if one is: an optional `-`,
/// one or more digits, `/`, one or more digits, where each run of digits is
/// taken whole and writes a number that fits 32 bits.
pub open spec fn written_fraction(s: Seq<char>) -> Option<Written> {
    let start: int = if s.len() > 0 && s[0] == '-' {
        1
    } else {
        0
    };
    let slash = digits_end(s, start);
    let end = digits_end(s, slash + 1);
    if start < slash < s.len() && s[slash] == '/' && slash + 1 < end && decimal(s, start, slash)
        <= u32::MAX && decimal(s, slash + 1, end) <= u32::MAX {
        Some(
            Written {
                negative: start == 1,
                numer: decimal(s, start, slash) as u32,
                denom: decimal(s, slash + 1, end) as u32,
                len: end as nat,
            },
        )
    } else {
        None
    }
}

/// The character that writes a digit.
pub open spec fn digit_char(d: nat) -> char
    recommends
        d < 10,
{
    if d == 0 {
        '0'
    } else if d == 1 {
        '1'
    } else if d == 2 {
        '2'
    } else if d == 3 {
        '3'
    } else if d == 4 {
        '4'
    } else if d == 5 {
        '5'
    } else if d == 6 {
        '6'
    } else if d == 7 {
        '7'
    } else if d == 8 {
        '8'
    } else {
        '9'
    }
}

/// The digits that write a number in base ten, with no zero in front.
pub open spec fn digits(n: nat) -> Seq<char>
    decreases n,
{
    if n < 10 {
        seq![digit_char(n)]
    } else {
        digits(n / 10).push(digit_char(n % 10))
    }
}

/// A fraction as it is written out: a `-` where it is negative, the numerator,
/// `/`, the denominator.
pub open spec fn rendered(negative: bool, numer: u32, denom: u32) -> Seq<char> {
    (if negative {
        seq!['-']
    } else {
        Seq::<char>::empty()
    }) + digits(numer as nat) + seq!['/'] + digits(denom as nat)
}

/// The text that `nom::number::complete::double` leaves and the double that it
/// reads at the head of the text, as its bit pattern; none where it reads none.
pub uninterp spec fn double_prefix(s: Seq<char>) -> Option<(Seq<char>, u64)>;

/// `nom::number::complete::double`, with `nom::error::Error` for its error:
/// the contract claims nothing but that the outcome depends on the text alone.
#[verifier::external_body]
fn scan_double(input: &str) -> (r: Option<(&str, u64)>)
    ensures
        match r {
            Some((rest, bits)) => double_prefix(input@) == Some((rest@, bits)),
            None => double_prefix(input@) is None,
        },
{
    match nom::number::complete::double::<&str, nom::error::Error<&str>>(input) {
        Ok((rest, value)) => Some((rest, value.to_bits())),
        Err(_) => None,
    }
}

/// Reads the run of digits that starts at `from`: where it ends, and the
/// number it writes if that fits 32 bits.
fn scan_digits(input: &str, len: usize, from: usize) -> (r: (usize, Option<u32>))
    requires
        len == input@.len(),
        from <= len,
    ensures
        r.0 == digits_end(input@, from as int),
        from <= r.0 <= len,
        match r.1 {
            Some(n) => n == decimal(input@, from as int, r.0 as int),
            None => decimal(input@, from as int, r.0 as int) > u32::MAX,
        },
{
    let mut i: usize = from;
    let mut value: u64 = 0;
    let mut fits: bool = true;
    while i < len
        invariant
            len == input@.len(),
            from <= i <= len,
            digits_end(input@, from as int) == digits_end(input@, i as int),
            fits ==> value == decimal(input@, from as int, i as int) && value <= u32::MAX,
            !fits ==> decimal(input@, from as int, i as int) > u32::MAX,
        ensures
            digits_end(input@, i as int) == i,
        decreases len - i,
    {
        let c: char = input.get_char(i);
        if !('0' <= c && c <= '9') {
            break;
        }
        let digit: u64 = (c as u32 - '0' as u32) as u64;
        if fits {
            value = value * 10 + digit;
            if value > 0xFFFF_FFFF {
                fits = false;
            }
        }
        i = i + 1;
    }
    if fits {
        (i, Some(value as u32))
    } else {
        (i, None)
    }
}

/// Reads a fraction at the head of the text: the text that follows it, and
/// the fraction in lowest terms.
pub fn parse_fraction(input: &str) -> (r: Option<(&str, Fraction)>)
    ensures
        match written_fraction(input@) {
            Some(w) => r matches Some((rest, fr)) && fr@ == reduced(w.negative, w.numer, w.denom)
                && rest@ == input@.skip(w.len as int),
            None => r is None,
        },
{
    let len: usize = input.unicode_len();
    let negative: bool = len > 0 && input.get_char(0) == '-';
    let start: usize = if negative {
        1
    } else {
        0
    };
    let (slash, numer) = scan_digits(input, len, start);
    if slash == start || slash >= len {
        return None;
    }
    if input.get_char(slash) != '/' {
        return None;
    }
    let (end, denom) = scan_digits(input, len, slash + 1);
    if end == slash + 1 {
        return None;
    }
    match (numer, denom) {
        (Some(n), Some(d)) => {
            let fr: Fraction = if negative {
                Fraction::new_neg(n, d)
            } else {
                Fraction::new(n, d)
            };
            Some((input.substring_char(end, len), fr))
        },
        _ => None,
    }
}

/// The number at the head of the text, by the three notations in their order:
/// the fraction, else the number in standard form, else the double.
pub open spec fn number_prefix(
    s: Seq<char>,
    standard_form: Option<(Seq<char>, StandardForm)>,
) -> Option<(Seq<char>, crate::number::Value)> {
    match written_fraction(s) {
        Some(w) => Some(
            (
                s.skip(w.len as int),
                crate::number::Value::Fraction(reduced(w.negative, w.numer, w.denom)),
            ),
        ),
        None => match standard_form {
            Some((rest, sf)) => Some(
                (rest, crate::number::Value::StandardForm(crate::scientific::scientific(sf))),
            ),
            None => match double_prefix(s) {
                Some((rest, bits)) => Some((rest, crate::number::Value::Decimal(bits))),
                None => None,
            },
        },
    }
}

/// A finding with the text that follows it, over the characters of that text.
pub open spec fn viewed<T>(found: Option<(&str, T)>) -> Option<(Seq<char>, T)> {
    match found {
        Some((rest, value)) => Some((rest@, value)),
        None => None,
    }
}

/// The first of three findings, in the order of the notations: the fraction,
/// else the number in standard form, else the double.
pub open spec fn first_found(
    fraction: Option<(Seq<char>, Fraction)>,
    standard_form: Option<(Seq<char>, StandardForm)>,
    double: Option<(Seq<char>, u64)>,
) -> Option<(Seq<char>, Number)> {
    match fraction {
        Some((rest, fr)) => Some((rest, Number::Fraction(fr))),
        None => match standard_form {
            Some((rest, sf)) => Some((rest, Number::StandardForm(sf))),
            None => match double {
                Some((rest, bits)) => Some((rest, Number::Decimal(bits))),
                None => None,
            },
        },
    }
}

/// Picks the number among what the three notations found at the head of one
/// text, each with the text that follows it.
pub fn first_number<'a>(
    fraction: Option<(&'a str, Fraction)>,
    standard_form: Option<(&'a str, StandardForm)>,
    double: Option<(&'a str, u64)>,
) -> (r: Option<(&'a str, Number)>)
    ensures
        viewed(r) == first_found(viewed(fraction), viewed(standard_form), viewed(double)),
{
    match fraction {
        Some((rest, fr)) => Some((rest, Number::Fraction(fr))),
        None => match standard_form {
            Some((rest, sf)) => Some((rest, Number::StandardForm(sf))),
            None => match double {
                Some((rest, bits)) => Some((rest, Number::Decimal(bits))),
                None => None,
            },
        },
    }
}

/// Reads a number at the head of the text, and hands back the text that
/// follows it.
///
/// `standard_form` is what the grammar of standard form with a required
/// exponent made of the same text. The fraction is tried before it and the
/// double after it; the text holds no number where all three find none.
pub fn parse_number<'a>(input: &'a str, standard_form: Option<(&'a str, StandardForm)>) -> (r: Option<
    (&'a str, Number),
>)
    ensures
        match (r, number_prefix(input@, viewed(standard_form))) {
            (Some((rest, n)), Some((after, v))) => n@ == v && rest@ == after,
            (None, None) => true,
            _ => false,
        },
        written_fraction(input@) is None ==> match (r, standard_form) {
            (Some((rest, n)), Some((after, sf))) => n == Number::StandardForm(sf) && rest@ == after@,
            _ => true,
        },
{
    let fraction = parse_fraction(input);
    let double = if fraction.is_none() && standard_form.is_none() {
        scan_double(input)
    } else {
        None
    };
    first_number(fraction, standard_form, double)
}

/// What writes a number is a run of one or more digits.
proof fn digits_are_digits(n: nat)
    ensures
        digits(n).len() >= 1,
        forall|i: int| 0 <= i < digits(n).len() ==> is_digit(#[trigger] digits(n)[i]),
    decreases n,
{
    if n >= 10 {
        digits_are_digits(n / 10);
    }
}

/// The digits that write a number, standing anywhere in a text, write it
/// there.
proof fn decimal_of_digits(s: Seq<char>, from: int, n: nat)
    requires
        0 <= from,
        from + digits(n).len() <= s.len(),
        s.subrange(from, from + digits(n).len()) == digits(n),
    ensures
        decimal(s, from, from + digits(n).len()) == n,
    decreases n,
{
    let t = digits(n);
    let to = from + t.len();
    digits_are_digits(n);
    assert(s[to - 1] == s.subrange(from, to)[t.len() - 1]);
    if n < 10 {
        assert(decimal(s, from, from) == 0);
    } else {
        let head = digits(n / 10);
        assert forall|i: int| 0 <= i < head.len() implies s.subrange(from, to - 1)[i]
            == head[i] by {
            assert(s.subrange(from, to)[i] == t[i]);
        }
        assert(s.subrange(from, to - 1) =~= head);
        decimal_of_digits(s, from, n / 10);
    }
}

/// A run of digits ends where the first character that is no digit stands, or
/// the text ends.
proof fn digits_end_after_digits(s: Seq<char>, from: int, to: int)
    requires
        0 <= from <= to <= s.len(),
        forall|i: int| from <= i < to ==> is_digit(#[trigger] s[i]),
        to < s.len() ==> !is_digit(s[to]),
    ensures
        digits_end(s, from) == to,
    decreases to - from,
{
    if from < to {
        digits_end_after_digits(s, from + 1, to);
    }
}

/// A fraction that is written out, with its numbers in base ten and no digit
/// behind it, is read as it was written: the same sign, numerator and
/// denominator, and all of its characters.
pub proof fn rendering_is_read_back(negative: bool, numer: u32, denom: u32, rest: Seq<char>)
    requires
        rest.len() > 0 ==> !is_digit(rest[0]),
    ensures
        written_fraction(rendered(negative, numer, denom) + rest) == Some(
            Written { negative, numer, denom, len: rendered(negative, numer, denom).len() },
        ),
{
    let sign = if negative {
        seq!['-']
    } else {
        Seq::<char>::empty()
    };
    let above = digits(numer as nat);
    let below = digits(denom as nat);
    let s = rendered(negative, numer, denom) + rest;
    let start = sign.len() as int;
    let slash = start + above.len();
    let end = slash + 1 + below.len();
    digits_are_digits(numer as nat);
    digits_are_digits(denom as nat);
    assert forall|i: int| start <= i < slash implies is_digit(#[trigger] s[i]) by {
        assert(s[i] == above[i - start]);
    }
    assert forall|i: int| slash + 1 <= i < end implies is_digit(#[trigger] s[i]) by {
        assert(s[i] == below[i - slash - 1]);
    }
    assert(s[slash] == '/');
    assert(!negative ==> s[0] == above[0]);
    digits_end_after_digits(s, start, slash);
    digits_end_after_digits(s, slash + 1, end);
    assert(s.subrange(start, slash) =~= above);
    assert(s.subrange(slash + 1, end) =~= below);
    decimal_of_digits(s, start, numer as nat);
    decimal_of_digits(s, slash + 1, denom as nat);
}

/// A rational fraction in lowest terms, written out with no digit behind it,
/// is read back as the fraction it was.
pub proof fn fraction_in_lowest_terms_is_read_back(
    negative: bool,
    numer: u32,
    denom: u32,
    rest: Seq<char>,
)
    requires
        denom > 0,
        crate::rational::gcd(numer as nat, denom as nat) == 1,
        rest.len() > 0 ==> !is_digit(rest[0]),
    ensures
        written_fraction(rendered(negative, numer, denom) + rest) matches Some(w) && reduced(
            w.negative,
            w.numer,
            w.denom,
        ) == (crate::rational::Parts::Rational { negative, numer, denom }) && (rendered(
            negative,
            numer,
            denom,
        ) + rest).skip(w.len as int) == rest,
{
    rendering_is_read_back(negative, numer, denom, rest);
    crate::rational::lowest_terms_are_kept(negative, numer, denom);
    let text = rendered(negative, numer, denom);
    assert((text + rest).skip(text.len() as int) =~= rest);
}

} // verus!
