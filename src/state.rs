use vstd::prelude::*;

use crate::constant::{arith_result, compare_result, ArithOp, CmpOp, Constant};
use crate::error::VmError;
use crate::instruction::Instruction;
use crate::register::{Register, RegisterLocation, RegisterReference};
use crate::stackframe::{empty_slots, read_slot};

verus! {

/// What a single step asks of whoever drives the machine.
#[derive(Clone, Copy, Debug, PartialEq, Eq, Structural)]
pub enum Event {
    /// Keep stepping.
    Continue,
    /// The outermost execution level returned.
    Finished,
    /// Hand this value to the external call bridge, then keep stepping.
    External(Constant),
}

/// The abstract state of the machine: everything an instruction reads or changes.
pub struct VmState {
    pub globals: Seq<Option<Constant>>,
    /// The call stack, each frame as its slots; the last one is active.
    pub frames: Seq<Seq<Option<Constant>>>,
    /// The operand stack.
    pub stack: Seq<Constant>,
    pub accumulator: i64,
    pub pool: Seq<Constant>,
    pub code: Seq<Instruction>,
    /// Index of the next instruction.
    pub pc: int,
    /// Indices to resume at when the current execution level ends.
    pub returns: Seq<usize>,
}

impl VmState {
    /// Slots of the active frame.
    pub open spec fn top(self) -> Seq<Option<Constant>> {
        self.frames.last()
    }

    /// What borrowing or copying register `r` gives.
    pub open spec fn read(self, r: Register) -> Result<Constant, VmError> {
        match r.1 {
            RegisterLocation::Global => read_slot(self.globals, r.0 as int),
            RegisterLocation::Local => if self.frames.len() == 0 {
                Err(VmError::NoStackFrame)
            } else {
                read_slot(self.top(), r.0 as int)
            },
            RegisterLocation::ConstantPool => if r.0 < self.pool.len() {
                Ok(self.pool[r.0 as int])
            } else {
                Err(VmError::RegisterOutOfRange)
            },
            RegisterLocation::Accumulator => Ok(Constant::Int(self.accumulator)),
        }
    }

    /// The register that the address stored in `r` names.
    pub open spec fn deref(self, r: Register) -> Result<Register, VmError> {
        if r.is_mutable_location() {
            match self.read(r) {
                Ok(Constant::Address(target)) => Ok(target),
                Ok(_) => Err(VmError::InvalidDereference),
                Err(e) => Err(e),
            }
        } else {
            Err(VmError::InvalidDereference)
        }
    }

    /// The register an operand finally designates.
    pub open spec fn resolve(self, r: Register, how: RegisterReference) -> Result<Register, VmError> {
        match how {
            RegisterReference::AsIs => Ok(r),
            RegisterReference::Dereference => self.deref(r),
        }
    }

    /// Why writing `v` into `r` is refused, if it is.
    pub open spec fn write_check(self, r: Register, v: Constant) -> Result<(), VmError> {
        match r.1 {
            RegisterLocation::Global => if r.0 < self.globals.len() {
                Ok(())
            } else {
                Err(VmError::RegisterOutOfRange)
            },
            RegisterLocation::Local => if self.frames.len() == 0 {
                Err(VmError::NoStackFrame)
            } else if r.0 < self.top().len() {
                Ok(())
            } else {
                Err(VmError::RegisterOutOfRange)
            },
            RegisterLocation::ConstantPool => Err(VmError::InvalidAccessMode),
            RegisterLocation::Accumulator => match v {
                Constant::Int(_) => Ok(()),
                Constant::Address(_) => Err(VmError::NonNumericOperand),
            },
        }
    }

    /// The state with slot `r` (global or local) set to `v`.
    pub open spec fn with_slot(self, r: Register, v: Option<Constant>) -> VmState {
        match r.1 {
            RegisterLocation::Global => VmState { globals: self.globals.update(r.0 as int, v), ..self },
            _ => VmState {
                frames: self.frames.update(
                    self.frames.len() - 1,
                    self.top().update(r.0 as int, v),
                ),
                ..self
            },
        }
    }

    /// Writing `v` into `r`, replacing what was there.
    pub open spec fn write(self, r: Register, v: Constant) -> Result<VmState, VmError> {
        match self.write_check(r, v) {
            Err(e) => Err(e),
            Ok(_) => match (r.1, v) {
                (RegisterLocation::Accumulator, Constant::Int(x)) => Ok(
                    VmState { accumulator: x, ..self },
                ),
                _ => Ok(self.with_slot(r, Some(v))),
            },
        }
    }

    /// Moving the value out of `r`, leaving the slot empty.
    pub open spec fn take(self, r: Register) -> Result<(VmState, Constant), VmError> {
        if !r.is_mutable_location() {
            Err(VmError::InvalidAccessMode)
        } else {
            match self.read(r) {
                Ok(v) => Ok((self.with_slot(r, None), v)),
                Err(e) => Err(e),
            }
        }
    }

    pub open spec fn advance(self, by: int) -> VmState {
        VmState { pc: self.pc + by, ..self }
    }

    pub open spec fn arith(self, op: ArithOp, d: Register, a: Register, b: Register) -> Result<
        (VmState, Event),
        VmError,
    > {
        match self.read(a) {
            Err(e) => Err(e),
            Ok(x) => match self.read(b) {
                Err(e) => Err(e),
                Ok(y) => match arith_result(op, x, y) {
                    Err(e) => Err(e),
                    Ok(v) => match self.write(d, v) {
                        Err(e) => Err(e),
                        Ok(s) => Ok((s.advance(1), Event::Continue)),
                    },
                },
            },
        }
    }

    /// Compare-and-skip: a true relation skips the next instruction.
    pub open spec fn cmp(self, op: CmpOp, a: Register, b: Register) -> Result<(VmState, Event), VmError> {
        match self.read(a) {
            Err(e) => Err(e),
            Ok(x) => match self.read(b) {
                Err(e) => Err(e),
                Ok(y) => match compare_result(op, x, y) {
                    Err(e) => Err(e),
                    Ok(t) => Ok((self.advance(if t { 2 } else { 1 }), Event::Continue)),
                },
            },
        }
    }

    /// Ends the current execution level: resume after the matching call, or finish.
    pub open spec fn ret(self) -> (VmState, Event) {
        if self.returns.len() == 0 {
            (self, Event::Finished)
        } else {
            (
                VmState { pc: self.returns.last() as int, returns: self.returns.drop_last(), ..self },
                Event::Continue,
            )
        }
    }

    /// Executes the instruction at `pc`. On an error the state is left as it was.
    pub open spec fn step(self) -> Result<(VmState, Event), VmError> {
        if self.pc < 0 || self.pc >= self.code.len() {
            Ok(self.ret())
        } else {
            match self.code[self.pc] {
                Instruction::Alloc(n) => Ok(
                    (VmState { frames: self.frames.push(empty_slots(n as nat)), ..self }.advance(1), Event::Continue),
                ),
                Instruction::FrameAlloc(n) => if self.frames.len() == 0 {
                    Err(VmError::NoStackFrame)
                } else {
                    Ok(
                        (VmState {
                            frames: self.frames.update(self.frames.len() - 1, self.top() + empty_slots(n as nat)),
                            ..self
                        }.advance(1), Event::Continue),
                    )
                },
                Instruction::Free(n) => if n > self.frames.len() {
                    Err(VmError::FrameUnderflow)
                } else {
                    Ok(
                        (VmState { frames: self.frames.subrange(0, self.frames.len() - n), ..self }.advance(1), Event::Continue),
                    )
                },
                Instruction::FrameFree(n) => if self.frames.len() == 0 {
                    Err(VmError::NoStackFrame)
                } else if n > self.top().len() {
                    Err(VmError::FrameUnderflow)
                } else {
                    Ok(
                        (VmState {
                            frames: self.frames.update(self.frames.len() - 1, self.top().subrange(0, self.top().len() - n)),
                            ..self
                        }.advance(1), Event::Continue),
                    )
                },
                Instruction::Jump(off) => if self.pc + off < 0 || self.pc + off > usize::MAX {
                    Err(VmError::InvalidJumpTarget)
                } else {
                    Ok((VmState { pc: self.pc + off, ..self }, Event::Continue))
                },
                Instruction::Call(target) => Ok(
                    (VmState { pc: target as int, returns: self.returns.push((self.pc + 1) as usize), ..self }, Event::Continue),
                ),
                Instruction::ExtCall(r) => match self.read(r) {
                    Err(e) => Err(e),
                    Ok(v) => Ok((self.advance(1), Event::External(v))),
                },
                Instruction::Ret => Ok(self.ret()),
                Instruction::Mov(d, dh, s, sh) => match self.resolve(d, dh) {
                    Err(e) => Err(e),
                    Ok(dst) => match self.resolve(s, sh) {
                        Err(e) => Err(e),
                        Ok(src) => match self.take(src) {
                            Err(e) => Err(e),
                            Ok((s1, v)) => match s1.write(dst, v) {
                                Err(e) => Err(e),
                                Ok(s2) => Ok((s2.advance(1), Event::Continue)),
                            },
                        },
                    },
                },
                Instruction::Cpy(d, dh, s, sh) => match self.resolve(d, dh) {
                    Err(e) => Err(e),
                    Ok(dst) => match self.resolve(s, sh) {
                        Err(e) => Err(e),
                        Ok(src) => match self.read(src) {
                            Err(e) => Err(e),
                            Ok(v) => match self.write(dst, v) {
                                Err(e) => Err(e),
                                Ok(s2) => Ok((s2.advance(1), Event::Continue)),
                            },
                        },
                    },
                },
                Instruction::Ref(d, dh, s, sh) => match self.resolve(d, dh) {
                    Err(e) => Err(e),
                    Ok(dst) => match self.resolve(s, sh) {
                        Err(e) => Err(e),
                        Ok(src) => match self.write(dst, Constant::Address(src)) {
                            Err(e) => Err(e),
                            Ok(s2) => Ok((s2.advance(1), Event::Continue)),
                        },
                    },
                },
                Instruction::StackPush(r, h) => match self.resolve(r, h) {
                    Err(e) => Err(e),
                    Ok(src) => match self.read(src) {
                        Err(e) => Err(e),
                        Ok(v) => Ok((VmState { stack: self.stack.push(v), ..self }.advance(1), Event::Continue)),
                    },
                },
                Instruction::StackMov(r, h) => match self.resolve(r, h) {
                    Err(e) => Err(e),
                    Ok(src) => match self.take(src) {
                        Err(e) => Err(e),
                        Ok((s1, v)) => Ok((VmState { stack: s1.stack.push(v), ..s1 }.advance(1), Event::Continue)),
                    },
                },
                Instruction::StackPop => Ok(
                    (VmState {
                        stack: if self.stack.len() == 0 { self.stack } else { self.stack.drop_last() },
                        ..self
                    }.advance(1), Event::Continue),
                ),
                Instruction::Add(d, a, b) => self.arith(ArithOp::Add, d, a, b),
                Instruction::Sub(d, a, b) => self.arith(ArithOp::Sub, d, a, b),
                Instruction::Mul(d, a, b) => self.arith(ArithOp::Mul, d, a, b),
                Instruction::Div(d, a, b) => self.arith(ArithOp::Div, d, a, b),
                Instruction::Mod(d, a, b) => self.arith(ArithOp::Mod, d, a, b),
                Instruction::Equal(a, b) => self.cmp(CmpOp::Equal, a, b),
                Instruction::NotEqual(a, b) => self.cmp(CmpOp::NotEqual, a, b),
                Instruction::Greater(a, b) => self.cmp(CmpOp::Greater, a, b),
                Instruction::Less(a, b) => self.cmp(CmpOp::Less, a, b),
                Instruction::GreaterEqual(a, b) => self.cmp(CmpOp::GreaterEqual, a, b),
                Instruction::LessEqual(a, b) => self.cmp(CmpOp::LessEqual, a, b),
            }
        }
    }
}

} // verus!
