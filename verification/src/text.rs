//! A number from the whole of a text.
//!
//! Three readings are tried in turn, and the first that succeeds is the
//! number: a double, a fraction, a number in standard form. This module holds
//! the order of the three, reads the fraction, and gathers the failures.
//!
//! The double and the number in standard form are read by the caller, and
//! handed in. The reading in standard form is asked for only once the other two
//! have failed: the `standardform` crate does not come back from every text
//! (not from `inf`, which is a double), so it must not be tried before its
//! turn.
use core::num::ParseFloatError;
use fraction::error::ParseError as ParsingFractionError;
use standardform::{ParsingStandardFormError, StandardForm};
use vstd::prelude::*;
use crate::err::ParsingNumberError;
use crate::number::Number;
use crate::rational::{fraction_of_text, Fraction};

verus! {

/// A text that is neither a double nor a fraction, with the two failures.
#[derive(Debug)]
pub struct Undecided {
    pub fraction: ParsingFractionError,
    pub double: ParseFloatError,
}

/// Where the reading of a text stands after the double and the fraction.
#[derive(Debug)]
pub enum Reading {
    /// The text is this number.
    Done(Number),
    /// The text may still be a number in standard form.
    Open(Undecided),
}

/// Where the reading stands after the double and the fraction: the double
/// where there is one, else the fraction where there is one, else open with the
/// two failures.
pub open spec fn reading_after(
    double: Result<u64, ParseFloatError>,
    fraction: Result<Fraction, ParsingFractionError>,
) -> Reading {
    match double {
        Ok(bits) => Reading::Done(Number::Decimal(bits)),
        Err(e) => match fraction {
            Ok(fr) => Reading::Done(Number::Fraction(fr)),
            Err(f) => Reading::Open(Undecided { fraction: f, double: e }),
        },
    }
}

impl Reading {
    /// Picks the number among what the readings as a double and as a fraction
    /// gave for one text.
    pub fn after(
        double: Result<u64, ParseFloatError>,
        fraction: Result<Fraction, ParsingFractionError>,
    ) -> (r: Reading)
        ensures
            r == reading_after(double, fraction),
    {
        match double {
            Ok(bits) => Reading::Done(Number::Decimal(bits)),
            Err(e) => match fraction {
                Ok(fr) => Reading::Done(Number::Fraction(fr)),
                Err(f) => Reading::Open(Undecided { fraction: f, double: e }),
            },
        }
    }
}

impl Number {
    /// Reads a text as a double or else as a fraction.
    ///
    /// `double` is what the reading of the same text as a double gave. Where it
    /// gave one, that is the number, and the text is not looked at.
    pub fn try_from(value: &str, double: Result<u64, ParseFloatError>) -> (r: Reading)
        ensures
            match double {
                Ok(bits) => r == Reading::Done(Number::Decimal(bits)),
                Err(e) => match fraction_of_text(value@) {
                    Ok(p) => r matches Reading::Done(Number::Fraction(fr)) && fr@ == p,
                    Err(f) => r == Reading::Open(Undecided { fraction: f, double: e }),
                },
            },
    {
        match double {
            Ok(bits) => Reading::Done(Number::Decimal(bits)),
            Err(e) => Reading::after(Err(e), Fraction::parse(value)),
        }
    }

    /// Reads a text as `try_from` does: the radix is not looked at.
    pub fn from_str_radix(value: &str, radix: u32, double: Result<u64, ParseFloatError>) -> (r:
        Reading)
        ensures
            match double {
                Ok(bits) => r == Reading::Done(Number::Decimal(bits)),
                Err(e) => match fraction_of_text(value@) {
                    Ok(p) => r matches Reading::Done(Number::Fraction(fr)) && fr@ == p,
                    Err(f) => r == Reading::Open(Undecided { fraction: f, double: e }),
                },
            },
    {
        Number::try_from(value, double)
    }
}

impl Undecided {
    /// Ends the reading with what the reading in standard form gave: that
    /// number, or the three failures together.
    pub fn conclude(self, standard_form: Result<StandardForm, ParsingStandardFormError>) -> (r:
        Result<Number, ParsingNumberError>)
        ensures
            match standard_form {
                Ok(sf) => r == Ok::<Number, ParsingNumberError>(Number::StandardForm(sf)),
                Err(e) => r matches Err(failure) && failure.fraction_failure() == self.fraction
                    && failure.double_failure() == self.double && failure.standardform_failure()
                    == e,
            },
    {
        match standard_form {
            Ok(sf) => Ok(Number::StandardForm(sf)),
            Err(e) => Err(ParsingNumberError::new(self.fraction, self.double, e)),
        }
    }
}

} // verus!
