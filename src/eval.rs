//! The arithmetic of one operation, failing instead of wrapping.
use vstd::prelude::*;
use crate::codec::Operation;

verus! {

/// Why an operation could not be applied to a value.
#[derive(Debug, Clone, Copy, PartialEq, Eq, Structural)]
pub enum EvalError {
    /// The exact result exceeds `u32::MAX`.
    Overflow,
    /// The exact result is below zero.
    Underflow,
    /// A division by zero.
    DivideByZero,
}

/// The exact result of `op` on `value`, or the error when it does not fit in
/// a `u32` or is undefined.
pub open spec fn apply_spec(value: u32, op: Operation) -> Result<u32, EvalError> {
    match op {
        Operation::Add(x) => {
            if value + x > u32::MAX {
                Err(EvalError::Overflow)
            } else {
                Ok((value + x) as u32)
            }
        },
        Operation::Subtract(x) => {
            if value < x {
                Err(EvalError::Underflow)
            } else {
                Ok((value - x) as u32)
            }
        },
        Operation::Multiply(x) => {
            if value * x > u32::MAX {
                Err(EvalError::Overflow)
            } else {
                Ok((value * x) as u32)
            }
        },
        Operation::Divide(x) => {
            if x == 0 {
                Err(EvalError::DivideByZero)
            } else {
                Ok((value / x) as u32)
            }
        },
        Operation::Assign(x) => Ok(x),
    }
}

/// Applies `op` to `value`; a result that does not fit, or a division by
/// zero, is an error and never wraps or saturates.
pub fn apply(value: u32, op: &Operation) -> (r: Result<u32, EvalError>)
    ensures
        r == apply_spec(value, *op),
{
    match *op {
        Operation::Add(x) => match value.checked_add(x) {
            Some(s) => Ok(s),
            None => Err(EvalError::Overflow),
        },
        Operation::Subtract(x) => match value.checked_sub(x) {
            Some(d) => Ok(d),
            None => Err(EvalError::Underflow),
        },
        Operation::Multiply(x) => match value.checked_mul(x) {
            Some(p) => Ok(p),
            None => Err(EvalError::Overflow),
        },
        Operation::Divide(x) => {
            if x == 0 {
                Err(EvalError::DivideByZero)
            } else {
                Ok(value / x)
            }
        },
        Operation::Assign(x) => Ok(x),
    }
}

/// Assigning the same operand twice leaves the value that assigning it once
/// leaves.
pub proof fn lemma_assign_idempotent(value: u32, x: u32)
    ensures
        apply_spec(value, Operation::Assign(x)) is Ok,
        apply_spec(apply_spec(value, Operation::Assign(x))->Ok_0, Operation::Assign(x))
            == apply_spec(value, Operation::Assign(x)),
{
}

} // verus!
