//! The one line in which the calculator reports an outcome.

use vstd::prelude::*;
use vstd::string::*;
use crate::error::CalcError;

verus! {

/// The line for a result, from the result as text.
pub open spec fn spec_result_line(value: Seq<char>) -> Seq<char> {
    "Result: "@ + value
}

/// The line for an error, from its message.
pub open spec fn spec_error_line(message: Seq<char>) -> Seq<char> {
    "Error: "@ + message
}

/// The line that reports a result. `value` is the result as text.
pub fn result_line(value: &str) -> (line: String)
    ensures
        line@ == spec_result_line(value@),
{
    String::from_str("Result: ").concat(value)
}

/// The line that reports an error.
pub fn error_line(error: &CalcError) -> (line: String)
    ensures
        line@ == spec_error_line(error@.message()),
{
    let message = error.message();
    String::from_str("Error: ").concat(message.as_str())
}

} // verus!
