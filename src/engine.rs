use vstd::prelude::*;

use crate::code_holder::find_export;
use crate::constant::{arithmetic, compare, ArithOp, CmpOp, Constant};
use crate::error::VmError;
use crate::instruction::Instruction;
use crate::interpreter::Interpreter;
use crate::register::{Register, RegisterLocation};
use crate::stackframe::StackFrame;
use crate::state::{Event, VmState};

verus! {

/// Why a run stopped without an error.
#[derive(Clone, Copy, Debug, PartialEq, Eq, Structural)]
pub enum Halt {
    /// The level the run started at returned, by `Ret` or by reaching the end.
    Returned,
    /// An external call is due with this value; run again to resume after it.
    ExternalCall(Constant),
    /// The allowed number of steps was used up; run again to go on.
    StepLimit,
}

/// Running at most `fuel` steps from `s`: the state reached and why it stopped.
/// A failing step leaves the state as it was before that step.
pub open spec fn run_spec(s: VmState, fuel: nat) -> (VmState, Result<Halt, VmError>)
    decreases fuel,
{
    if fuel == 0 {
        (s, Ok(Halt::StepLimit))
    } else {
        match s.step() {
            Err(e) => (s, Err(e)),
            Ok((next, Event::Continue)) => run_spec(next, (fuel - 1) as nat),
            Ok((next, Event::Finished)) => (next, Ok(Halt::Returned)),
            Ok((next, Event::External(v))) => (next, Ok(Halt::ExternalCall(v))),
        }
    }
}

/// The state in which a run entered at `index` begins.
pub open spec fn entered(s: VmState, index: usize) -> VmState {
    VmState { pc: index as int, returns: Seq::empty(), ..s }
}

impl Interpreter {
    /// The program fits below the largest index, so that advancing past an
    /// instruction never overflows.
    pub open spec fn wf(self) -> bool {
        self.code_holder.instructions@.len() < usize::MAX
    }

    fn ret_level(&mut self) -> (e: Event)
        ensures
            (final(self)@, e) == old(self)@.ret(),
            final(self).same_extras(*old(self)),
            final(self).code_holder == old(self).code_holder,
    {
        match self.return_stack.pop() {
            Some(to) => {
                self.pc = to;
                Event::Continue
            },
            None => Event::Finished,
        }
    }

    fn arith_step(&mut self, op: ArithOp, d: Register, a: Register, b: Register) -> (r: Result<
        Event,
        VmError,
    >)
        requires
            old(self).pc < old(self).code_holder.instructions@.len(),
            old(self).wf(),
        ensures
            match old(self)@.arith(op, d, a, b) {
                Ok((s, e)) => r == Ok::<Event, VmError>(e) && final(self)@ == s,
                Err(e) => r == Err::<Event, VmError>(e) && final(self)@ == old(self)@,
            },
            final(self).same_extras(*old(self)),
    {
        let (x, y) = self.get_constants(&a, &b)?;
        let v = arithmetic(op, x, y)?;
        self.write_register(d, v)?;
        self.pc = self.pc + 1;
        Ok(Event::Continue)
    }

    fn cmp_step(&mut self, op: CmpOp, a: Register, b: Register) -> (r: Result<Event, VmError>)
        requires
            old(self).pc < old(self).code_holder.instructions@.len(),
            old(self).wf(),
        ensures
            match old(self)@.cmp(op, a, b) {
                Ok((s, e)) => r == Ok::<Event, VmError>(e) && final(self)@ == s,
                Err(e) => r == Err::<Event, VmError>(e) && final(self)@ == old(self)@,
            },
            final(self).same_extras(*old(self)),
    {
        let (x, y) = self.get_constants(&a, &b)?;
        let holds = compare(op, x, y)?;
        if holds {
            self.pc = self.pc + 2;
        } else {
            self.pc = self.pc + 1;
        }
        Ok(Event::Continue)
    }

    /// Executes the instruction at `pc`, or ends the level when `pc` is past the end.
    pub fn step(&mut self) -> (r: Result<Event, VmError>)
        requires
            old(self).wf(),
        ensures
            match old(self)@.step() {
                Ok((s, e)) => r == Ok::<Event, VmError>(e) && final(self)@ == s,
                Err(e) => r == Err::<Event, VmError>(e) && final(self)@ == old(self)@,
            },
            final(self).same_extras(*old(self)),
    {
        let len = self.code_holder.instructions.len();
        if self.pc >= len {
            return Ok(self.ret_level());
        }
        let ghost pre = self@;
        match self.code_holder.instructions[self.pc] {
            Instruction::Alloc(n) => {
                let f = StackFrame::new(n);
                self.call_stack.push(f);
                self.pc = self.pc + 1;
                assert(self@.frames =~= pre.frames.push(f.registers@));
                Ok(Event::Continue)
            },
            Instruction::FrameAlloc(n) => {
                let k = self.call_stack.len();
                if k == 0 {
                    return Err(VmError::NoStackFrame);
                }
                self.call_stack[k - 1].grow(n);
                self.pc = self.pc + 1;
                assert(self@.frames =~= pre.frames.update(k - 1, self.call_stack@[k - 1].registers@));
                Ok(Event::Continue)
            },
            Instruction::Free(n) => {
                let k = self.call_stack.len();
                if n > k {
                    return Err(VmError::FrameUnderflow);
                }
                self.call_stack.truncate(k - n);
                self.pc = self.pc + 1;
                assert(self@.frames =~= pre.frames.subrange(0, k - n));
                Ok(Event::Continue)
            },
            Instruction::FrameFree(n) => {
                let k = self.call_stack.len();
                if k == 0 {
                    return Err(VmError::NoStackFrame);
                }
                if n > self.call_stack[k - 1].registers.len() {
                    return Err(VmError::FrameUnderflow);
                }
                let _ = self.call_stack[k - 1].shrink(n);
                self.pc = self.pc + 1;
                assert(self@.frames =~= pre.frames.update(k - 1, self.call_stack@[k - 1].registers@));
                Ok(Event::Continue)
            },
            Instruction::Jump(off) => {
                let target: i128 = self.pc as i128 + off as i128;
                if target < 0 || target > usize::MAX as i128 {
                    return Err(VmError::InvalidJumpTarget);
                }
                self.pc = target as usize;
                Ok(Event::Continue)
            },
            Instruction::Call(target) => {
                self.return_stack.push(self.pc + 1);
                self.pc = target;
                Ok(Event::Continue)
            },
            Instruction::ExtCall(reg) => {
                let v = self.read_register(reg)?;
                self.pc = self.pc + 1;
                Ok(Event::External(v))
            },
            Instruction::Ret => Ok(self.ret_level()),
            Instruction::Mov(d, dh, s, sh) => {
                let dst = self.resolve_register(d, dh)?;
                let src = self.resolve_register(s, sh)?;
                if !(src.1 == RegisterLocation::Global || src.1 == RegisterLocation::Local) {
                    return Err(VmError::InvalidAccessMode);
                }
                let v = self.read_register(src)?;
                self.check_write(dst, v)?;
                let _ = self.take_register(src);
                let _ = self.write_register(dst, v);
                self.pc = self.pc + 1;
                Ok(Event::Continue)
            },
            Instruction::Cpy(d, dh, s, sh) => {
                let dst = self.resolve_register(d, dh)?;
                let src = self.resolve_register(s, sh)?;
                let v = self.read_register(src)?;
                self.write_register(dst, v)?;
                self.pc = self.pc + 1;
                Ok(Event::Continue)
            },
            Instruction::Ref(d, dh, s, sh) => {
                let dst = self.resolve_register(d, dh)?;
                let src = self.resolve_register(s, sh)?;
                self.write_register(dst, Constant::Address(src))?;
                self.pc = self.pc + 1;
                Ok(Event::Continue)
            },
            Instruction::StackPush(reg, how) => {
                let src = self.resolve_register(reg, how)?;
                let v = self.read_register(src)?;
                self.stack.push(v);
                self.pc = self.pc + 1;
                Ok(Event::Continue)
            },
            Instruction::StackMov(reg, how) => {
                let src = self.resolve_register(reg, how)?;
                let v = self.take_register(src)?;
                self.stack.push(v);
                self.pc = self.pc + 1;
                Ok(Event::Continue)
            },
            Instruction::StackPop => {
                if self.stack.len() > 0 {
                    let _ = self.stack.pop();
                }
                self.pc = self.pc + 1;
                Ok(Event::Continue)
            },
            Instruction::Add(d, a, b) => self.arith_step(ArithOp::Add, d, a, b),
            Instruction::Sub(d, a, b) => self.arith_step(ArithOp::Sub, d, a, b),
            Instruction::Mul(d, a, b) => self.arith_step(ArithOp::Mul, d, a, b),
            Instruction::Div(d, a, b) => self.arith_step(ArithOp::Div, d, a, b),
            Instruction::Mod(d, a, b) => self.arith_step(ArithOp::Mod, d, a, b),
            Instruction::Equal(a, b) => self.cmp_step(CmpOp::Equal, a, b),
            Instruction::NotEqual(a, b) => self.cmp_step(CmpOp::NotEqual, a, b),
            Instruction::Greater(a, b) => self.cmp_step(CmpOp::Greater, a, b),
            Instruction::Less(a, b) => self.cmp_step(CmpOp::Less, a, b),
            Instruction::GreaterEqual(a, b) => self.cmp_step(CmpOp::GreaterEqual, a, b),
            Instruction::LessEqual(a, b) => self.cmp_step(CmpOp::LessEqual, a, b),
        }
    }

    /// Steps from the current `pc` until the level the run is at returns, an
    /// external call is due, an instruction fails, or `max_steps` steps are done.
    pub fn run(&mut self, max_steps: usize) -> (r: Result<Halt, VmError>)
        requires
            old(self).wf(),
        ensures
            (final(self)@, r) == run_spec(old(self)@, max_steps as nat),
            final(self).same_extras(*old(self)),
            final(self).wf(),
    {
        let mut left = max_steps;
        while left > 0
            invariant
                self.wf(),
                self.same_extras(*old(self)),
                run_spec(self@, left as nat) == run_spec(old(self)@, max_steps as nat),
            decreases left,
        {
            match self.step() {
                Err(e) => return Err(e),
                Ok(Event::Continue) => {},
                Ok(Event::Finished) => return Ok(Halt::Returned),
                Ok(Event::External(v)) => return Ok(Halt::ExternalCall(v)),
            }
            left = left - 1;
        }
        Ok(Halt::StepLimit)
    }

    /// Starts a run at instruction `start_index`, as its own outermost level.
    pub fn execute_instruction(&mut self, start_index: usize, max_steps: usize) -> (r: Result<
        Halt,
        VmError,
    >)
        requires
            old(self).wf(),
        ensures
            (final(self)@, r) == run_spec(entered(old(self)@, start_index), max_steps as nat),
            final(self).same_extras(*old(self)),
    {
        self.pc = start_index;
        self.return_stack = Vec::new();
        assert(self@ == entered(old(self)@, start_index));
        self.run(max_steps)
    }

    /// Starts a run at the function exported under `func_name`. An unknown name
    /// fails before any instruction executes and changes nothing.
    pub fn execute_function(&mut self, func_name: &String, max_steps: usize) -> (r: Result<
        Halt,
        VmError,
    >)
        requires
            old(self).wf(),
        ensures
            match find_export(old(self).code_holder.exports@, func_name@) {
                None => r == Err::<Halt, VmError>(VmError::MissingExport) && *final(self) == *old(
                    self,
                ),
                Some(index) => (final(self)@, r) == run_spec(
                    entered(old(self)@, index),
                    max_steps as nat,
                ),
            },
            final(self).same_extras(*old(self)),
    {
        match self.code_holder.lookup_export(func_name) {
            Some(index) => self.execute_instruction(index, max_steps),
            None => Err(VmError::MissingExport),
        }
    }
}

} // verus!
