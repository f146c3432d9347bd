//! The ways in which a request to the calculator fails.

use vstd::prelude::*;
use vstd::string::*;
use std::num::ParseFloatError;
use crate::operation::Operation;

verus! {

/// What went wrong with a request.
#[derive(Debug, PartialEq, Eq)]
pub enum CalcError {
    /// An operand is malformed, missing, or outside the domain of the
    /// operation. The text says which.
    OperandParseError(String),
    /// The divisor is zero.
    DivisionByZero,
}

/// A `CalcError` with its message as a sequence of characters.
pub enum Failure {
    OperandParse(Seq<char>),
    DivisionByZero,
}

impl View for CalcError {
    type V = Failure;

    open spec fn view(&self) -> Failure {
        match self {
            CalcError::OperandParseError(message) => Failure::OperandParse(message@),
            CalcError::DivisionByZero => Failure::DivisionByZero,
        }
    }
}

impl Failure {
    /// What is reported of text that is not a number.
    pub open spec fn malformed_operand() -> Failure {
        Failure::OperandParse("Failed to parse operand"@)
    }

    /// What is reported when an operation that takes two operands got one.
    pub open spec fn missing_second_operand(operation: Operation) -> Failure {
        Failure::OperandParse("Missing second operand for "@ + operation.spec_noun())
    }

    /// What is reported of a square root of a number below zero.
    pub open spec fn negative_radicand() -> Failure {
        Failure::OperandParse("Cannot square root a negative number"@)
    }

    /// The text shown to the user for this failure.
    pub open spec fn message(self) -> Seq<char> {
        match self {
            Failure::OperandParse(message) => message,
            Failure::DivisionByZero => "Division by zero is not allowed."@,
        }
    }
}

impl CalcError {
    /// The text shown to the user for this error.
    pub fn message(&self) -> (text: String)
        ensures
            text@ == self@.message(),
    {
        match self {
            CalcError::OperandParseError(message) => message.clone(),
            CalcError::DivisionByZero => "Division by zero is not allowed.".to_owned(),
        }
    }

    /// The error for an operation that takes two operands and got one.
    pub fn missing_second_operand(operation: Operation) -> (error: CalcError)
        ensures
            error@ == Failure::missing_second_operand(operation),
    {
        let text = String::from_str("Missing second operand for ").concat(operation.noun());
        CalcError::OperandParseError(text)
    }

    /// The error for a square root of a number below zero.
    pub fn negative_radicand() -> (error: CalcError)
        ensures
            error@ == Failure::negative_radicand(),
    {
        CalcError::OperandParseError("Cannot square root a negative number".to_owned())
    }
}

/// `std::num::ParseFloatError`, the error of the standard conversion from text
/// to a floating-point number. It is carried through as it is: nothing is
/// claimed of what it holds.
#[verifier::external_type_specification]
#[verifier::external_body]
pub struct ExParseFloatError(ParseFloatError);

/// Every failure of the standard conversion is reported in the same words:
/// what the conversion had to say is dropped.
impl From<ParseFloatError> for CalcError {
    fn from(_error: ParseFloatError) -> (failure: CalcError)
        ensures
            failure@ == Failure::malformed_operand(),
    {
        CalcError::OperandParseError("Failed to parse operand".to_owned())
    }
}

impl vstd::std_specs::convert::FromSpecImpl<ParseFloatError> for CalcError {
    /// Two strings with the same characters are not known to be one value, so
    /// `from` is specified by its own postcondition, over the view.
    open spec fn obeys_from_spec() -> bool {
        false
    }

    open spec fn from_spec(_error: ParseFloatError) -> CalcError {
        choose|failure: CalcError| failure@ == Failure::malformed_operand()
    }
}

} // verus!
