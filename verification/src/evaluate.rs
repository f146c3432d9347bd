//! Which calculation a request comes to, and when it is refused.

use vstd::prelude::*;
use crate::error::{CalcError, Failure};
use crate::operand::{lemma_zero_encodings, Operand, NEGATIVE_ZERO, POSITIVE_ZERO};
use crate::operation::Operation;

verus! {

/// A calculation that is ready to be carried out in double-precision
/// arithmetic. Its result is returned as it comes: an infinite result or a NaN
/// is a result, not an error.
#[derive(Clone, Copy, Debug, PartialEq, Eq, Structural)]
pub enum Calculation {
    /// The first operand plus the second.
    Sum(Operand, Operand),
    /// The first operand minus the second.
    Difference(Operand, Operand),
    /// The first operand times the second.
    Product(Operand, Operand),
    /// The first operand divided by the second.
    Quotient(Operand, Operand),
    /// The first operand raised to the second.
    Power(Operand, Operand),
    /// The square root of the operand.
    SquareRoot(Operand),
    /// The remainder of the first operand divided by the second, with the sign
    /// of the first.
    Remainder(Operand, Operand),
}

impl Calculation {
    /// The operation that the calculation belongs to.
    pub open spec fn operation(self) -> Operation {
        match self {
            Calculation::Sum(_, _) => Operation::Add,
            Calculation::Difference(_, _) => Operation::Subtract,
            Calculation::Product(_, _) => Operation::Multiply,
            Calculation::Quotient(_, _) => Operation::Divide,
            Calculation::Power(_, _) => Operation::Power,
            Calculation::SquareRoot(_) => Operation::Sqrt,
            Calculation::Remainder(_, _) => Operation::Modulo,
        }
    }

    /// No quotient has a divisor that is zero, and no square root is taken of a
    /// number below zero.
    pub open spec fn is_admissible(self) -> bool {
        match self {
            Calculation::Quotient(_, divisor) => !divisor@.is_zero(),
            Calculation::SquareRoot(radicand) => !radicand@.is_below_zero(),
            _ => true,
        }
    }
}

/// What a request comes to: the calculation to carry out, or the reason why
/// there is none.
///
/// The square root takes the first operand alone and ignores a second one. Every
/// other operation needs the second operand; a division also needs it to be
/// other than zero, of either sign.
pub open spec fn evaluation(
    operation: Operation,
    operand1: Operand,
    operand2: Option<Operand>,
) -> Result<Calculation, Failure> {
    match (operation, operand2) {
        (Operation::Sqrt, _) => if operand1@.is_below_zero() {
            Err(Failure::negative_radicand())
        } else {
            Ok(Calculation::SquareRoot(operand1))
        },
        (_, None) => Err(Failure::missing_second_operand(operation)),
        (Operation::Add, Some(second)) => Ok(Calculation::Sum(operand1, second)),
        (Operation::Subtract, Some(second)) => Ok(Calculation::Difference(operand1, second)),
        (Operation::Multiply, Some(second)) => Ok(Calculation::Product(operand1, second)),
        (Operation::Divide, Some(second)) => if second@.is_zero() {
            Err(Failure::DivisionByZero)
        } else {
            Ok(Calculation::Quotient(operand1, second))
        },
        (Operation::Power, Some(second)) => Ok(Calculation::Power(operand1, second)),
        (Operation::Modulo, Some(second)) => Ok(Calculation::Remainder(operand1, second)),
    }
}

/// An outcome with its error, if it is one, as a `Failure`.
pub open spec fn outcome_view(outcome: Result<Calculation, CalcError>) -> Result<
    Calculation,
    Failure,
> {
    match outcome {
        Ok(calculation) => Ok(calculation),
        Err(error) => Err(error@),
    }
}

/// Decides what is to be calculated for `operation` on the operands given, or
/// why nothing is. The operands are not changed, and the same request always
/// has the same outcome.
pub fn perform_operation(
    operation: Operation,
    operand1: Operand,
    operand2: Option<Operand>,
) -> (outcome: Result<Calculation, CalcError>)
    ensures
        outcome_view(outcome) == evaluation(operation, operand1, operand2),
{
    match operation {
        Operation::Add => match operand2 {
            Some(second) => Ok(Calculation::Sum(operand1, second)),
            None => Err(CalcError::missing_second_operand(operation)),
        },
        Operation::Subtract => match operand2 {
            Some(second) => Ok(Calculation::Difference(operand1, second)),
            None => Err(CalcError::missing_second_operand(operation)),
        },
        Operation::Multiply => match operand2 {
            Some(second) => Ok(Calculation::Product(operand1, second)),
            None => Err(CalcError::missing_second_operand(operation)),
        },
        Operation::Divide => match operand2 {
            Some(second) => {
                if second.is_zero() {
                    Err(CalcError::DivisionByZero)
                } else {
                    Ok(Calculation::Quotient(operand1, second))
                }
            },
            None => Err(CalcError::missing_second_operand(operation)),
        },
        Operation::Power => match operand2 {
            Some(second) => Ok(Calculation::Power(operand1, second)),
            None => Err(CalcError::missing_second_operand(operation)),
        },
        Operation::Sqrt => {
            if operand1.is_below_zero() {
                Err(CalcError::negative_radicand())
            } else {
                Ok(Calculation::SquareRoot(operand1))
            }
        },
        Operation::Modulo => match operand2 {
            Some(second) => Ok(Calculation::Remainder(operand1, second)),
            None => Err(CalcError::missing_second_operand(operation)),
        },
    }
}

/// Decides a request whose operands come from their texts. An operand that
/// could not be read ends the request with its own error, the first operand
/// before the second, and nothing is evaluated; a second operand that was not
/// given is absent.
pub fn calculate(
    operation: Operation,
    operand1: Result<Operand, CalcError>,
    operand2: Option<Result<Operand, CalcError>>,
) -> (outcome: Result<Calculation, CalcError>)
    ensures
        match (operand1, operand2) {
            (Err(error), _) => outcome == Err::<Calculation, CalcError>(error),
            (Ok(_), Some(Err(error))) => outcome == Err::<Calculation, CalcError>(error),
            (Ok(first), Some(Ok(second))) => outcome_view(outcome) == evaluation(
                operation,
                first,
                Some(second),
            ),
            (Ok(first), None) => outcome_view(outcome) == evaluation(operation, first, None),
        },
{
    let first = match operand1 {
        Ok(first) => first,
        Err(error) => {
            return Err(error);
        },
    };
    let second = match operand2 {
        Some(Ok(second)) => Some(second),
        Some(Err(error)) => {
            return Err(error);
        },
        None => None,
    };
    perform_operation(operation, first, second)
}

/// A request is granted exactly when its operation has the operands it needs
/// and they are in its domain: a square root needs the first operand not to be
/// below zero, every other operation needs a second operand, and a division
/// needs it not to be zero.
pub proof fn lemma_granted(operation: Operation, operand1: Operand, operand2: Option<Operand>)
    ensures
        evaluation(operation, operand1, operand2) is Ok <==> if operation is Sqrt {
            !operand1@.is_below_zero()
        } else {
            operand2 matches Some(second) && !(operation is Divide && second@.is_zero())
        },
{
}

/// The calculation of a granted request belongs to the operation asked for,
/// takes the operands in the order given, and is admissible.
pub proof fn lemma_granted_calculation(
    operation: Operation,
    operand1: Operand,
    operand2: Option<Operand>,
)
    requires
        evaluation(operation, operand1, operand2) is Ok,
    ensures
        ({
            let calculation = evaluation(operation, operand1, operand2)->Ok_0;
            &&& calculation.operation() == operation
            &&& calculation.is_admissible()
            &&& calculation == match operation {
                Operation::Add => Calculation::Sum(operand1, operand2->0),
                Operation::Subtract => Calculation::Difference(operand1, operand2->0),
                Operation::Multiply => Calculation::Product(operand1, operand2->0),
                Operation::Divide => Calculation::Quotient(operand1, operand2->0),
                Operation::Power => Calculation::Power(operand1, operand2->0),
                Operation::Sqrt => Calculation::SquareRoot(operand1),
                Operation::Modulo => Calculation::Remainder(operand1, operand2->0),
            }
        }),
{
}

/// Addition, subtraction, multiplication, power and modulo are granted on any
/// two operands, whatever they hold: no operand is out of their domain, a zero
/// as the second operand of a modulo included.
pub proof fn lemma_two_operands_suffice(first: Operand, second: Operand)
    ensures
        evaluation(Operation::Add, first, Some(second)) == Ok::<Calculation, Failure>(
            Calculation::Sum(first, second),
        ),
        evaluation(Operation::Subtract, first, Some(second)) == Ok::<Calculation, Failure>(
            Calculation::Difference(first, second),
        ),
        evaluation(Operation::Multiply, first, Some(second)) == Ok::<Calculation, Failure>(
            Calculation::Product(first, second),
        ),
        evaluation(Operation::Power, first, Some(second)) == Ok::<Calculation, Failure>(
            Calculation::Power(first, second),
        ),
        evaluation(Operation::Modulo, first, Some(second)) == Ok::<Calculation, Failure>(
            Calculation::Remainder(first, second),
        ),
{
}

/// A division by a divisor other than zero is granted, whatever the dividend.
pub proof fn lemma_division(dividend: Operand, divisor: Operand)
    requires
        !divisor@.is_zero(),
    ensures
        evaluation(Operation::Divide, dividend, Some(divisor)) == Ok::<Calculation, Failure>(
            Calculation::Quotient(dividend, divisor),
        ),
{
}

/// A division by zero is refused as such, whatever the dividend, and by
/// negative zero as by positive zero.
pub proof fn lemma_division_by_zero(dividend: Operand, divisor: Operand)
    requires
        divisor.bits == POSITIVE_ZERO || divisor.bits == NEGATIVE_ZERO,
    ensures
        evaluation(Operation::Divide, dividend, Some(divisor)) == Err::<Calculation, Failure>(
            Failure::DivisionByZero,
        ),
{
    lemma_zero_encodings(divisor);
}

/// A square root is decided by its first operand alone: it is refused when
/// that operand is below zero and granted otherwise, whether or not a second
/// operand came with it. Both zeros are in its domain.
pub proof fn lemma_square_root(operand: Operand, ignored: Option<Operand>)
    ensures
        operand@.is_below_zero() ==> evaluation(Operation::Sqrt, operand, ignored) == Err::<
            Calculation,
            Failure,
        >(Failure::negative_radicand()),
        !operand@.is_below_zero() ==> evaluation(Operation::Sqrt, operand, ignored) == Ok::<
            Calculation,
            Failure,
        >(Calculation::SquareRoot(operand)),
        operand@.is_zero() ==> !operand@.is_below_zero(),
{
}

/// An operation that takes two operands and got one is refused with a message
/// that names the operation.
pub proof fn lemma_missing_second_operand(operation: Operation, operand: Operand)
    requires
        operation.spec_is_binary(),
    ensures
        evaluation(operation, operand, None) == Err::<Calculation, Failure>(
            Failure::missing_second_operand(operation),
        ),
{
}

/// The same request has the same outcome: whatever two evaluations of one
/// request return, they return the same.
pub proof fn lemma_same_request_same_outcome(
    operation: Operation,
    operand1: Operand,
    operand2: Option<Operand>,
    once: Result<Calculation, CalcError>,
    again: Result<Calculation, CalcError>,
)
    requires
        outcome_view(once) == evaluation(operation, operand1, operand2),
        outcome_view(again) == evaluation(operation, operand1, operand2),
    ensures
        outcome_view(once) == outcome_view(again),
{
}

} // verus!
