//! The failure to read a number from text.
use core::num::ParseFloatError;
use fraction::error::ParseError as ParsingFractionError;
use standardform::ParsingStandardFormError;
use vstd::prelude::*;

verus! {

#[verifier::external_type_specification]
#[verifier::external_body]
pub struct ExParseFloatError(ParseFloatError);

#[verifier::external_type_specification]
#[verifier::external_body]
pub struct ExParsingFractionError(ParsingFractionError);

#[verifier::external_type_specification]
#[verifier::external_body]
pub struct ExParsingStandardFormError(ParsingStandardFormError);

/// Text that is no number in any of the three representations: the failure of
/// each attempt to read it.
#[derive(Debug)]
pub struct ParsingNumberError {
    fraction: ParsingFractionError,
    double: ParseFloatError,
    sf: ParsingStandardFormError,
}

impl ParsingNumberError {
    /// The three failures as one.
    pub fn new(fraction: ParsingFractionError, double: ParseFloatError, sf: ParsingStandardFormError) -> (r:
        ParsingNumberError)
        ensures
            r.fraction_failure() == fraction,
            r.double_failure() == double,
            r.standardform_failure() == sf,
    {
        ParsingNumberError { fraction, double, sf }
    }

    /// Why the text is no fraction.
    pub closed spec fn fraction_failure(&self) -> ParsingFractionError {
        self.fraction
    }

    /// Why the text is no double.
    pub closed spec fn double_failure(&self) -> ParseFloatError {
        self.double
    }

    /// Why the text is no number in standard form.
    pub closed spec fn standardform_failure(&self) -> ParsingStandardFormError {
        self.sf
    }

    /// Why the text is no fraction.
    pub fn fraction(&self) -> (r: &ParsingFractionError)
        ensures
            *r == self.fraction_failure(),
    {
        &self.fraction
    }

    /// Why the text is no double.
    pub fn double(&self) -> (r: &ParseFloatError)
        ensures
            *r == self.double_failure(),
    {
        &self.double
    }

    /// Why the text is no number in standard form.
    pub fn standardform(&self) -> (r: &ParsingStandardFormError)
        ensures
            *r == self.standardform_failure(),
    {
        &self.sf
    }
}

} // verus!
