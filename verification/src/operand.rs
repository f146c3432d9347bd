//! Double-precision operands, modelled by the fields of their encoding.

use vstd::prelude::*;
use std::num::ParseFloatError;
use crate::error::{CalcError, Failure};

verus! {

/// The three fields of an IEEE 754 binary64 encoding.
pub struct Binary64 {
    /// The sign bit is set.
    pub negative: bool,
    /// The eleven bits of the biased exponent.
    pub exponent: nat,
    /// The fifty-two bits of the fraction.
    pub fraction: nat,
}

impl Binary64 {
    /// Not a number: the exponent is all ones and the fraction is not zero.
    pub open spec fn is_nan(self) -> bool {
        self.exponent == 0x7ff && self.fraction != 0
    }

    /// Positive or negative zero: what compares equal to zero.
    pub open spec fn is_zero(self) -> bool {
        self.exponent == 0 && self.fraction == 0
    }

    /// Strictly less than zero: negative, and neither a zero nor a NaN.
    pub open spec fn is_below_zero(self) -> bool {
        self.negative && !self.is_zero() && !self.is_nan()
    }
}

/// The bit pattern of positive zero.
pub const POSITIVE_ZERO: u64 = 0;

/// The bit pattern of negative zero.
pub const NEGATIVE_ZERO: u64 = 0x8000_0000_0000_0000;

/// The bit pattern of negative infinity: the largest one below zero that is no
/// NaN.
pub const NEGATIVE_INFINITY: u64 = 0xfff0_0000_0000_0000;

/// A double-precision value, held as its IEEE 754 binary64 bit pattern.
///
/// Every bit pattern is an operand. Two operands are `==` when their bit
/// patterns are the same, which is finer than numeric equality: the two zeros
/// differ, and a NaN equals itself.
#[derive(Clone, Copy, Debug, PartialEq, Eq, Structural)]
pub struct Operand {
    pub bits: u64,
}

impl View for Operand {
    type V = Binary64;

    open spec fn view(&self) -> Binary64 {
        Binary64 {
            negative: (self.bits >> 63) == 1,
            exponent: ((self.bits >> 52) & 0x7ff) as nat,
            fraction: (self.bits & 0xf_ffff_ffff_ffff) as nat,
        }
    }
}

impl Operand {
    /// The operand with the given bit pattern.
    pub fn from_bits(bits: u64) -> (operand: Operand)
        ensures
            operand.bits == bits,
    {
        Operand { bits }
    }

    /// The operand's bit pattern.
    pub fn to_bits(&self) -> (bits: u64)
        ensures
            bits == self.bits,
    {
        self.bits
    }

    /// Whether the operand compares equal to zero, which both zeros do.
    pub fn is_zero(&self) -> (answer: bool)
        ensures
            answer == self@.is_zero(),
    {
        let bits: u64 = self.bits;
        assert(((bits & 0x7fff_ffff_ffff_ffff) == 0) == (((bits >> 52) & 0x7ff) == 0 && (bits
            & 0xf_ffff_ffff_ffff) == 0)) by (bit_vector);
        (bits & 0x7fff_ffff_ffff_ffff) == 0
    }

    /// Whether the operand is strictly less than zero.
    pub fn is_below_zero(&self) -> (answer: bool)
        ensures
            answer == self@.is_below_zero(),
    {
        proof {
            lemma_below_zero_encodings(*self);
        }
        NEGATIVE_ZERO < self.bits && self.bits <= NEGATIVE_INFINITY
    }
}

/// The operands that compare equal to zero are the two zeros.
pub proof fn lemma_zero_encodings(operand: Operand)
    ensures
        operand@.is_zero() <==> operand.bits == POSITIVE_ZERO || operand.bits == NEGATIVE_ZERO,
{
    let bits = operand.bits;
    assert((((bits >> 52) & 0x7ff) == 0 && (bits & 0xf_ffff_ffff_ffff) == 0) == (bits == 0 || bits
        == 0x8000_0000_0000_0000)) by (bit_vector);
}

/// The operands below zero are those whose bit pattern lies above that of
/// negative zero and not above that of negative infinity.
pub proof fn lemma_below_zero_encodings(operand: Operand)
    ensures
        operand@.is_below_zero() <==> NEGATIVE_ZERO < operand.bits <= NEGATIVE_INFINITY,
{
    let bits = operand.bits;
    assert((0x8000_0000_0000_0000 < bits && bits <= 0xfff0_0000_0000_0000) == ((bits >> 63) == 1
        && !(((bits >> 52) & 0x7ff) == 0 && (bits & 0xf_ffff_ffff_ffff) == 0) && !(((bits >> 52)
        & 0x7ff) == 0x7ff && (bits & 0xf_ffff_ffff_ffff) != 0))) by (bit_vector);
}

/// An operand, or what is reported in its place. `conversion` is the outcome of
/// the standard conversion of the operand's text to a double-precision number,
/// with the number as its bit pattern. Every number is taken as it is: no range
/// is imposed, and infinities and NaN pass.
pub fn parse_operand(conversion: Result<u64, ParseFloatError>) -> (parsed: Result<
    Operand,
    CalcError,
>)
    ensures
        match conversion {
            Ok(bits) => parsed == Ok::<Operand, CalcError>(Operand { bits }),
            Err(_) => parsed is Err && parsed->Err_0@ == Failure::malformed_operand(),
        },
{
    match conversion {
        Ok(bits) => Ok(Operand::from_bits(bits)),
        Err(error) => Err(CalcError::from(error)),
    }
}

} // verus!
