//! The rules of a command-line arithmetic evaluator: which operation a name
//! selects, which operands an operation needs, when a request is refused, and
//! how the outcome is reported.
//!
//! Operands are double-precision values held as their IEEE 754 bit patterns.
//! The library decides which calculation is to be carried out on them; the
//! floating-point arithmetic itself is left to the caller.

pub mod error;
pub mod evaluate;
pub mod operand;
pub mod operation;
pub mod report;
pub mod text;
