use vstd::prelude::*;

use crate::register::{Register, RegisterReference};

verus! {

/// One bytecode instruction.
#[derive(Clone, Copy, Debug, PartialEq, Eq, Structural)]
pub enum Instruction {
    /// Push a new call frame with that many empty slots.
    Alloc(usize),
    /// Append that many empty slots to the active frame.
    FrameAlloc(usize),
    /// Pop that many call frames.
    Free(usize),
    /// Remove that many slots from the end of the active frame.
    FrameFree(usize),
    /// Continue at the current index plus this signed offset.
    Jump(i64),
    /// Continue at this absolute index, returning after it when it ends.
    Call(usize),
    /// Hand the operand's value to the external call bridge.
    ExtCall(Register),
    /// End the current execution level.
    Ret,
    /// Move a value from the second register into the first, emptying the source.
    Mov(Register, RegisterReference, Register, RegisterReference),
    /// Copy a value from the second register into the first.
    Cpy(Register, RegisterReference, Register, RegisterReference),
    /// Store into the first register the address of the second.
    Ref(Register, RegisterReference, Register, RegisterReference),
    /// Push a copy of a register's value onto the operand stack.
    StackPush(Register, RegisterReference),
    /// Move a register's value onto the operand stack.
    StackMov(Register, RegisterReference),
    /// Drop the top of the operand stack.
    StackPop,
    Add(Register, Register, Register),
    Sub(Register, Register, Register),
    Mul(Register, Register, Register),
    Div(Register, Register, Register),
    Mod(Register, Register, Register),
    Equal(Register, Register),
    NotEqual(Register, Register),
    Greater(Register, Register),
    Less(Register, Register),
    GreaterEqual(Register, Register),
    LessEqual(Register, Register),
}

} // verus!
