use vstd::prelude::*;

use crate::constant::Constant;
use crate::error::VmError;
use crate::interpreter::Interpreter;
use crate::register::{Register, RegisterLocation, RegisterReference};
use crate::stackframe::StackFrame;
use crate::state::VmState;

verus! {

/// Frame `i` of the call stack, as slots.
pub open spec fn frames_of(stack: Seq<StackFrame>) -> Seq<Seq<Option<Constant>>> {
    stack.map_values(|f: StackFrame| f.registers@)
}

/// The outcome of a move out of `r`: the value and the state after, or the
/// error with the state unchanged.
pub open spec fn moved(pre: VmState, post: VmState, r: Register, out: Result<Constant, VmError>) -> bool {
    match pre.take(r) {
        Ok((s, v)) => out == Ok::<Constant, VmError>(v) && post == s,
        Err(e) => out == Err::<Constant, VmError>(e) && post == pre,
    }
}

/// A borrowed result agrees with the value that a read gives.
pub open spec fn borrowed(expected: Result<Constant, VmError>, out: Result<&Constant, VmError>) -> bool {
    match out {
        Ok(c) => expected == Ok::<Constant, VmError>(*c),
        Err(e) => expected == Err::<Constant, VmError>(e),
    }
}

impl Interpreter {
    /// Moves the value out of global register `index`, leaving it empty.
    pub fn mov_global(&mut self, index: usize) -> (r: Result<Constant, VmError>)
        ensures
            moved(old(self)@, final(self)@, Register(index, RegisterLocation::Global), r),
            final(self).same_extras(*old(self)),
    {
        if index >= self.global.len() {
            return Err(VmError::RegisterOutOfRange);
        }
        match self.global[index] {
            Some(c) => {
                self.global.set(index, None);
                Ok(c)
            },
            None => Err(VmError::UninitializedRegister),
        }
    }

    /// A copy of global register `index`.
    pub fn cpy_global(&self, index: usize) -> (r: Result<Constant, VmError>)
        ensures
            r == self@.read(Register(index, RegisterLocation::Global)),
    {
        match self.ref_global(index) {
            Ok(c) => Ok(*c),
            Err(e) => Err(e),
        }
    }

    /// A borrow of global register `index`.
    pub fn ref_global(&self, index: usize) -> (r: Result<&Constant, VmError>)
        ensures
            borrowed(self@.read(Register(index, RegisterLocation::Global)), r),
    {
        if index >= self.global.len() {
            return Err(VmError::RegisterOutOfRange);
        }
        match &self.global[index] {
            Some(c) => Ok(c),
            None => Err(VmError::UninitializedRegister),
        }
    }

    /// Moves the value out of local register `index` of the active frame.
    pub fn mov_local(&mut self, index: usize) -> (r: Result<Constant, VmError>)
        ensures
            moved(old(self)@, final(self)@, Register(index, RegisterLocation::Local), r),
            final(self).same_extras(*old(self)),
    {
        let n = self.call_stack.len();
        if n == 0 {
            return Err(VmError::NoStackFrame);
        }
        let ghost pre = self.call_stack@;
        let r = self.call_stack[n - 1].mov_register(index);
        assert(frames_of(self.call_stack@) =~= frames_of(pre).update(
            n - 1,
            self.call_stack@[n - 1].registers@,
        ));
        assert(r is Err ==> frames_of(self.call_stack@) =~= frames_of(pre));
        r
    }

    /// A copy of local register `index` of the active frame.
    pub fn cpy_local(&self, index: usize) -> (r: Result<Constant, VmError>)
        ensures
            r == self@.read(Register(index, RegisterLocation::Local)),
    {
        match self.ref_local(index) {
            Ok(c) => Ok(*c),
            Err(e) => Err(e),
        }
    }

    /// A borrow of local register `index` of the active frame.
    pub fn ref_local(&self, index: usize) -> (r: Result<&Constant, VmError>)
        ensures
            borrowed(self@.read(Register(index, RegisterLocation::Local)), r),
    {
        match self.ref_stack_frame_imut() {
            Ok(frame) => frame.ref_register(index),
            Err(e) => Err(e),
        }
    }

    /// A copy of constant `index` of the pool.
    pub fn cpy_constant(&self, index: usize) -> (r: Result<Constant, VmError>)
        ensures
            r == self@.read(Register(index, RegisterLocation::ConstantPool)),
    {
        match self.ref_constant(index) {
            Ok(c) => Ok(*c),
            Err(e) => Err(e),
        }
    }

    /// A borrow of constant `index` of the pool.
    pub fn ref_constant(&self, index: usize) -> (r: Result<&Constant, VmError>)
        ensures
            borrowed(self@.read(Register(index, RegisterLocation::ConstantPool)), r),
    {
        if index >= self.code_holder.constant_pool.len() {
            return Err(VmError::RegisterOutOfRange);
        }
        Ok(&self.code_holder.constant_pool[index])
    }

    /// The active frame, for changing it in place.
    pub fn ref_stack_frame(&mut self) -> (r: Result<&mut StackFrame, VmError>)
        ensures
            old(self).call_stack@.len() == 0 ==> r == Err::<&mut StackFrame, VmError>(
                VmError::NoStackFrame,
            ) && *final(self) == *old(self),
            old(self).call_stack@.len() > 0 ==> r is Ok,
            r is Ok ==> *r->Ok_0 == old(self).call_stack@.last(),
            r is Ok ==> final(self).call_stack@ == old(self).call_stack@.update(
                old(self).call_stack@.len() - 1,
                *final(r->Ok_0),
            ),
            r is Ok ==> (Interpreter { call_stack: old(self).call_stack, ..*final(self) }) == *old(
                self,
            ),
    {
        let n = self.call_stack.len();
        if n == 0 {
            return Err(VmError::NoStackFrame);
        }
        Ok(&mut self.call_stack[n - 1])
    }

    /// The active frame, for reading.
    pub fn ref_stack_frame_imut(&self) -> (r: Result<&StackFrame, VmError>)
        ensures
            self.call_stack@.len() == 0 ==> r == Err::<&StackFrame, VmError>(VmError::NoStackFrame),
            self.call_stack@.len() > 0 ==> r == Ok::<&StackFrame, VmError>(&self.call_stack@.last()),
    {
        let n = self.call_stack.len();
        if n == 0 {
            return Err(VmError::NoStackFrame);
        }
        Ok(&self.call_stack[n - 1])
    }

    /// Refreshes the accumulator's tagged wrapper from the scalar.
    pub fn accu_const(&mut self)
        ensures
            final(self).accumulator_as_const == Constant::Int(old(self).accumulator),
            final(self)@ == old(self)@,
            final(self).same_extras(*old(self)),
    {
        self.accumulator_as_const = Constant::Int(self.accumulator);
    }

    /// The register that the address held in register `index` at `reg_loc` names.
    pub fn dereference_register(&self, index: usize, reg_loc: &RegisterLocation) -> (r: Result<
        Register,
        VmError,
    >)
        ensures
            r == self@.deref(Register(index, *reg_loc)),
    {
        let held = match reg_loc {
            RegisterLocation::Global => self.ref_global(index),
            RegisterLocation::Local => self.ref_local(index),
            _ => return Err(VmError::InvalidDereference),
        };
        match held {
            Ok(Constant::Address(target)) => Ok(*target),
            Ok(_) => Err(VmError::InvalidDereference),
            Err(e) => Err(e),
        }
    }

    /// Copies the values of two registers, of any two locations, refreshing the
    /// accumulator's wrapper once if either names it.
    pub fn get_constants(&mut self, reg_1: &Register, reg_2: &Register) -> (r: Result<
        (Constant, Constant),
        VmError,
    >)
        ensures
            r == match (old(self)@.read(*reg_1), old(self)@.read(*reg_2)) {
                (Err(e), _) => Err(e),
                (Ok(_), Err(e)) => Err(e),
                (Ok(a), Ok(b)) => Ok((a, b)),
            },
            final(self)@ == old(self)@,
            final(self).same_extras(*old(self)),
            (reg_1.1 is Accumulator || reg_2.1 is Accumulator) ==> final(self).accumulator_as_const
                == Constant::Int(old(self).accumulator),
    {
        if reg_1.1 == RegisterLocation::Accumulator || reg_2.1 == RegisterLocation::Accumulator {
            self.accu_const();
        }
        let a = match self.cached_read(reg_1) {
            Ok(c) => c,
            Err(e) => return Err(e),
        };
        let b = match self.cached_read(reg_2) {
            Ok(c) => c,
            Err(e) => return Err(e),
        };
        Ok((a, b))
    }

    /// A copy of a register's value, reading the accumulator through its wrapper.
    fn cached_read(&self, reg: &Register) -> (r: Result<Constant, VmError>)
        requires
            reg.1 is Accumulator ==> self.accumulator_as_const == Constant::Int(self.accumulator),
        ensures
            r == self@.read(*reg),
    {
        match reg.1 {
            RegisterLocation::Global => self.cpy_global(reg.0),
            RegisterLocation::Local => self.cpy_local(reg.0),
            RegisterLocation::ConstantPool => self.cpy_constant(reg.0),
            RegisterLocation::Accumulator => Ok(self.accumulator_as_const),
        }
    }

    /// A copy of a register's value.
    pub fn read_register(&self, reg: Register) -> (r: Result<Constant, VmError>)
        ensures
            r == self@.read(reg),
    {
        match reg.1 {
            RegisterLocation::Global => self.cpy_global(reg.0),
            RegisterLocation::Local => self.cpy_local(reg.0),
            RegisterLocation::ConstantPool => self.cpy_constant(reg.0),
            RegisterLocation::Accumulator => Ok(Constant::Int(self.accumulator)),
        }
    }

    /// The register an operand designates, following an address when asked to.
    pub fn resolve_register(&self, reg: Register, how: RegisterReference) -> (r: Result<
        Register,
        VmError,
    >)
        ensures
            r == self@.resolve(reg, how),
    {
        match how {
            RegisterReference::AsIs => Ok(reg),
            RegisterReference::Dereference => self.dereference_register(reg.0, &reg.1),
        }
    }

    /// Whether `value` may be written into `reg`, and if not, why.
    pub fn check_write(&self, reg: Register, value: Constant) -> (r: Result<(), VmError>)
        ensures
            r == self@.write_check(reg, value),
    {
        match reg.1 {
            RegisterLocation::Global => if reg.0 < self.global.len() {
                Ok(())
            } else {
                Err(VmError::RegisterOutOfRange)
            },
            RegisterLocation::Local => {
                let n = self.call_stack.len();
                if n == 0 {
                    Err(VmError::NoStackFrame)
                } else if reg.0 < self.call_stack[n - 1].registers.len() {
                    Ok(())
                } else {
                    Err(VmError::RegisterOutOfRange)
                }
            },
            RegisterLocation::ConstantPool => Err(VmError::InvalidAccessMode),
            RegisterLocation::Accumulator => match value {
                Constant::Int(_) => Ok(()),
                Constant::Address(_) => Err(VmError::NonNumericOperand),
            },
        }
    }

    /// Writes `value` into `reg`, replacing its prior content.
    pub fn write_register(&mut self, reg: Register, value: Constant) -> (r: Result<(), VmError>)
        ensures
            match old(self)@.write(reg, value) {
                Ok(s) => r is Ok && final(self)@ == s,
                Err(e) => r == Err::<(), VmError>(e) && final(self)@ == old(self)@,
            },
            final(self).same_extras(*old(self)),
    {
        match self.check_write(reg, value) {
            Err(e) => return Err(e),
            Ok(_) => {},
        }
        match reg.1 {
            RegisterLocation::Global => {
                self.global.set(reg.0, Some(value));
            },
            RegisterLocation::Local => {
                let n = self.call_stack.len();
                let ghost pre = self.call_stack@;
                let _ = self.call_stack[n - 1].set_register(reg.0, value);
                assert(frames_of(self.call_stack@) =~= frames_of(pre).update(
                    n - 1,
                    frames_of(pre)[n - 1].update(reg.0 as int, Some(value)),
                ));
            },
            _ => {
                match value {
                    Constant::Int(x) => {
                        self.accumulator = x;
                    },
                    Constant::Address(_) => {},
                }
            },
        }
        Ok(())
    }

    /// Moves the value out of `reg`, which must be global or local.
    pub fn take_register(&mut self, reg: Register) -> (r: Result<Constant, VmError>)
        ensures
            moved(old(self)@, final(self)@, reg, r),
            final(self).same_extras(*old(self)),
    {
        match reg.1 {
            RegisterLocation::Global => self.mov_global(reg.0),
            RegisterLocation::Local => self.mov_local(reg.0),
            _ => Err(VmError::InvalidAccessMode),
        }
    }
}

} // verus!
