use vstd::prelude::*;

use crate::error::VmError;
use crate::register::Register;

verus! {

/// A tagged runtime value: an integer, or an address naming a register.
#[derive(Clone, Copy, Debug, PartialEq, Eq, Structural)]
pub enum Constant {
    Int(i64),
    Address(Register),
}

/// The binary arithmetic operations.
#[derive(Clone, Copy, Debug, PartialEq, Eq, Structural)]
pub enum ArithOp {
    Add,
    Sub,
    Mul,
    Div,
    Mod,
}

/// The comparison relations that drive compare-and-skip branching.
#[derive(Clone, Copy, Debug, PartialEq, Eq, Structural)]
pub enum CmpOp {
    Equal,
    NotEqual,
    Greater,
    Less,
    GreaterEqual,
    LessEqual,
}

/// Quotient rounded toward zero; the one overflowing case, `i64::MIN / -1`, wraps to `i64::MIN`.
pub open spec fn wrapping_quotient(x: i64, y: i64) -> i64 {
    match x.checked_div(y) {
        Some(q) => q,
        None => i64::MIN,
    }
}

/// Remainder with the sign of the dividend; `i64::MIN % -1` is 0.
pub open spec fn wrapping_remainder(x: i64, y: i64) -> i64 {
    match x.checked_rem(y) {
        Some(r) => r,
        None => 0,
    }
}

/// The result of an arithmetic operation on two values. Integer addition,
/// subtraction and multiplication wrap on overflow.
pub open spec fn arith_result(op: ArithOp, a: Constant, b: Constant) -> Result<Constant, VmError> {
    match (a, b) {
        (Constant::Int(x), Constant::Int(y)) => match op {
            ArithOp::Add => Ok(Constant::Int(x.wrapping_add(y))),
            ArithOp::Sub => Ok(Constant::Int(x.wrapping_sub(y))),
            ArithOp::Mul => Ok(Constant::Int(x.wrapping_mul(y))),
            ArithOp::Div => if y == 0 {
                Err(VmError::DivisionByZero)
            } else {
                Ok(Constant::Int(wrapping_quotient(x, y)))
            },
            ArithOp::Mod => if y == 0 {
                Err(VmError::DivisionByZero)
            } else {
                Ok(Constant::Int(wrapping_remainder(x, y)))
            },
        },
        _ => Err(VmError::NonNumericOperand),
    }
}

/// Whether a comparison relation holds of two values. Equality is defined on
/// every pair; the orderings only on integers.
pub open spec fn compare_result(op: CmpOp, a: Constant, b: Constant) -> Result<bool, VmError> {
    match op {
        CmpOp::Equal => Ok(a == b),
        CmpOp::NotEqual => Ok(a != b),
        _ => match (a, b) {
            (Constant::Int(x), Constant::Int(y)) => Ok(
                match op {
                    CmpOp::Greater => x > y,
                    CmpOp::Less => x < y,
                    CmpOp::GreaterEqual => x >= y,
                    _ => x <= y,
                },
            ),
            _ => Err(VmError::NonNumericOperand),
        },
    }
}

/// Applies an arithmetic operation to two values.
pub fn arithmetic(op: ArithOp, a: Constant, b: Constant) -> (r: Result<Constant, VmError>)
    ensures
        r == arith_result(op, a, b),
{
    match (a, b) {
        (Constant::Int(x), Constant::Int(y)) => match op {
            ArithOp::Add => Ok(Constant::Int(x.wrapping_add(y))),
            ArithOp::Sub => Ok(Constant::Int(x.wrapping_sub(y))),
            ArithOp::Mul => Ok(Constant::Int(x.wrapping_mul(y))),
            ArithOp::Div => {
                if y == 0 {
                    Err(VmError::DivisionByZero)
                } else {
                    match x.checked_div(y) {
                        Some(q) => Ok(Constant::Int(q)),
                        None => Ok(Constant::Int(i64::MIN)),
                    }
                }
            },
            ArithOp::Mod => {
                if y == 0 {
                    Err(VmError::DivisionByZero)
                } else {
                    match x.checked_rem(y) {
                        Some(m) => Ok(Constant::Int(m)),
                        None => Ok(Constant::Int(0)),
                    }
                }
            },
        },
        _ => Err(VmError::NonNumericOperand),
    }
}

/// Decides a comparison relation between two values.
pub fn compare(op: CmpOp, a: Constant, b: Constant) -> (r: Result<bool, VmError>)
    ensures
        r == compare_result(op, a, b),
{
    match op {
        CmpOp::Equal => Ok(a == b),
        CmpOp::NotEqual => Ok(a != b),
        _ => match (a, b) {
            (Constant::Int(x), Constant::Int(y)) => Ok(
                match op {
                    CmpOp::Greater => x > y,
                    CmpOp::Less => x < y,
                    CmpOp::GreaterEqual => x >= y,
                    _ => x <= y,
                },
            ),
            _ => Err(VmError::NonNumericOperand),
        },
    }
}

} // verus!
