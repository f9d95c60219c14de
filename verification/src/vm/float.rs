//! The interface to the floating-point unit.
//!
//! The machine stores a floating-point register as the 64 bits of an
//! IEEE 754 double. It moves such patterns around, but it does no
//! floating-point arithmetic itself: an instruction that needs some
//! describes it in a [`FloatRequest`], and whoever drives the machine
//! answers with the resulting bits.

use vstd::prelude::*;

verus! {

/// An operation of the floating-point unit.
#[derive(Debug, Clone, Copy, PartialEq, Eq, Structural)]
pub enum FloatOp {
    /// The double nearest to the unsigned integer `lhs`.
    FromUnsigned,
    /// The double `lhs` as an unsigned integer, rounded toward zero and
    /// limited to the range of 64 bits.
    ToUnsigned,
    /// `lhs + rhs`.
    Add,
    /// `lhs - rhs`.
    Subtract,
    /// `lhs * rhs`.
    Multiply,
    /// `lhs / rhs`.
    Divide,
    /// Whether `lhs` and `rhs` differ by less than the machine epsilon.
    Equal,
    /// Whether `lhs` and `rhs` differ by more than the machine epsilon.
    NotEqual,
    /// Whether `lhs > rhs`.
    GreaterThan,
    /// Whether `lhs < rhs`.
    LessThan,
    /// Whether `lhs >= rhs`.
    GreaterThanOrEqual,
    /// Whether `lhs <= rhs`.
    LessThanOrEqual,
}

/// One piece of work for the floating-point unit.
///
/// The operands of an arithmetic operation or a comparison are bit
/// patterns of doubles; the operand of `FromUnsigned` is an integer. An
/// operation with one operand leaves `rhs` zero. The answer to an
/// arithmetic operation or to `FromUnsigned` is the bit pattern of the
/// result, the answer to `ToUnsigned` is the integer, and the answer to a
/// comparison is nonzero where it holds and zero where it does not.
#[derive(Debug, Clone, Copy, PartialEq, Eq, Structural)]
pub struct FloatRequest {
    pub op: FloatOp,
    pub lhs: u64,
    pub rhs: u64,
}

} // verus!
