use vstd::prelude::*;

use crate::code_holder::CodeHolder;
use crate::constant::Constant;
use crate::stackframe::{empty_slots, StackFrame};
use crate::state::VmState;

verus! {

/// A register virtual machine instance: its register file, call stack, operand
/// stack, accumulator and loaded program.
pub struct Interpreter {
    /// Arguments the instance was started with.
    pub args: Vec<String>,
    /// Scalar register for fast math; authoritative over its cached wrapper.
    pub accumulator: i64,
    /// Tagged view of `accumulator`, refreshed by `accu_const` before it is read.
    pub accumulator_as_const: Constant,
    /// Holds the value a function returns.
    pub func_ret: Constant,
    pub call_stack: Vec<StackFrame>,
    /// The operand stack.
    pub stack: Vec<Constant>,
    pub global: Vec<Option<Constant>>,
    pub code_holder: CodeHolder,
    /// Index of the next instruction.
    pub pc: usize,
    /// Indices to resume at when the current execution level ends.
    pub return_stack: Vec<usize>,
}

impl View for Interpreter {
    type V = VmState;

    open spec fn view(&self) -> VmState {
        VmState {
            globals: self.global@,
            frames: self.call_stack@.map_values(|f: StackFrame| f.registers@),
            stack: self.stack@,
            accumulator: self.accumulator,
            pool: self.code_holder.constant_pool@,
            code: self.code_holder.instructions@,
            pc: self.pc as int,
            returns: self.return_stack@,
        }
    }
}

/// The state of a fresh instance: no frames, no globals, nothing loaded.
pub open spec fn blank_state(globals: nat, pool: Seq<Constant>, code: Seq<crate::instruction::Instruction>) -> VmState {
    VmState {
        globals: empty_slots(globals),
        frames: Seq::empty(),
        stack: Seq::empty(),
        accumulator: 0,
        pool,
        code,
        pc: 0,
        returns: Seq::empty(),
    }
}

impl Interpreter {
    /// Parts of the instance that no register access or instruction changes.
    pub open spec fn same_extras(self, other: Interpreter) -> bool {
        &&& self.args == other.args
        &&& self.func_ret == other.func_ret
        &&& self.code_holder == other.code_holder
    }

    /// An instance with no program, no globals and no arguments.
    pub fn new() -> (r: Interpreter)
        ensures
            r@ == blank_state(0, Seq::empty(), Seq::empty()),
            r.args@.len() == 0,
            r.func_ret == Constant::Int(0),
            r.code_holder.exports@.len() == 0,
    {
        Interpreter::with_code(CodeHolder::new(Vec::new(), Vec::new(), Vec::new()), 0)
    }

    /// An instance running `code`, with `global_count` empty global registers.
    pub fn with_code(code: CodeHolder, global_count: usize) -> (r: Interpreter)
        ensures
            r@ == blank_state(global_count as nat, code.constant_pool@, code.instructions@),
            r.args@.len() == 0,
            r.func_ret == Constant::Int(0),
            r.code_holder == code,
    {
        let mut global: Vec<Option<Constant>> = Vec::new();
        let mut k: usize = 0;
        while k < global_count
            invariant
                k <= global_count,
                global@ == empty_slots(k as nat),
            decreases global_count - k,
        {
            global.push(None);
            k = k + 1;
            assert(global@ =~= empty_slots(k as nat));
        }
        let r = Interpreter {
            args: Vec::new(),
            accumulator: 0,
            accumulator_as_const: Constant::Int(0),
            func_ret: Constant::Int(0),
            call_stack: Vec::new(),
            stack: Vec::new(),
            global,
            code_holder: code,
            pc: 0,
            return_stack: Vec::new(),
        };
        assert(r@.frames =~= Seq::<Seq<Option<Constant>>>::empty());
        r
    }
}

impl Default for Interpreter {
    fn default() -> (r: Interpreter)
        ensures
            r@ == blank_state(0, Seq::empty(), Seq::empty()),
            r.args@.len() == 0,
    {
        Interpreter::new()
    }
}

impl From<Vec<String>> for Interpreter {
    /// An instance with no program that carries `passed_args`.
    fn from(passed_args: Vec<String>) -> (r: Interpreter)
        ensures
            r@ == blank_state(0, Seq::empty(), Seq::empty()),
            r.args@ == passed_args@,
    {
        let mut r = Interpreter::new();
        r.args = passed_args;
        r
    }
}

impl vstd::std_specs::convert::FromSpecImpl<Vec<String>> for Interpreter {
    open spec fn obeys_from_spec() -> bool {
        false
    }

    open spec fn from_spec(v: Vec<String>) -> Interpreter {
        arbitrary()
    }
}

} // verus!
