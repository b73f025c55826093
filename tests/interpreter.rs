use resurgence::{
    CodeHolder, Constant, Halt, Instruction, Interpreter, Register, RegisterLocation,
    RegisterReference, VmError,
};

fn local(i: usize) -> Register {
    Register(i, RegisterLocation::Local)
}

fn global(i: usize) -> Register {
    Register(i, RegisterLocation::Global)
}

fn pool(i: usize) -> Register {
    Register(i, RegisterLocation::ConstantPool)
}

fn accu() -> Register {
    Register(0, RegisterLocation::Accumulator)
}

fn machine(code: Vec<Instruction>, constants: Vec<Constant>, globals: usize) -> Interpreter {
    Interpreter::with_code(CodeHolder::new(code, constants, Vec::new()), globals)
}

#[test]
fn create_instance() {
    let test_args: Vec<String> = vec![String::from("--debug")];
    let interpreter_instance = Interpreter::from(test_args.clone());
    assert_eq!(interpreter_instance.args, test_args);
}

#[test]
fn new_and_default_are_empty() {
    let a = Interpreter::new();
    let b = Interpreter::default();
    assert!(a.args.is_empty() && b.args.is_empty());
    assert!(a.call_stack.is_empty() && a.global.is_empty() && a.stack.is_empty());
    assert_eq!(a.func_ret, Constant::Int(0));
}

#[test]
fn add_constants_into_local() {
    let mut vm = machine(
        vec![Instruction::Alloc(1), Instruction::Add(local(0), pool(0), pool(1)), Instruction::Ret],
        vec![Constant::Int(3), Constant::Int(4)],
        0,
    );
    assert_eq!(vm.execute_instruction(0, 100), Ok(Halt::Returned));
    assert_eq!(vm.cpy_local(0), Ok(Constant::Int(7)));
}

#[test]
fn equal_skips_the_jump() {
    let mut vm = machine(
        vec![
            Instruction::Equal(pool(0), pool(1)),
            Instruction::Jump(100),
            Instruction::Ret,
        ],
        vec![Constant::Int(5), Constant::Int(5)],
        0,
    );
    assert_eq!(vm.step(), Ok(resurgence::Event::Continue));
    assert_eq!(vm.pc, 2);
    assert_eq!(vm.execute_instruction(0, 100), Ok(Halt::Returned));
    assert_eq!(vm.pc, 2);
}

#[test]
fn invoke_by_name() {
    let code = CodeHolder::new(
        vec![Instruction::Alloc(1), Instruction::Ret],
        Vec::new(),
        vec![(String::from("main"), 0)],
    );
    let mut vm = Interpreter::with_code(code, 0);
    assert_eq!(vm.execute_function(&String::from("missing"), 100), Err(VmError::MissingExport));
    assert_eq!(vm.call_stack.len(), 0);
    assert_eq!(vm.pc, 0);
    assert_eq!(vm.execute_function(&String::from("main"), 100), Ok(Halt::Returned));
    assert_eq!(vm.call_stack.len(), 1);
}

#[test]
fn lookup_export_takes_the_first_match() {
    let code = CodeHolder::new(
        Vec::new(),
        Vec::new(),
        vec![(String::from("a"), 4), (String::from("b"), 7), (String::from("b"), 9)],
    );
    assert_eq!(code.lookup_export(&String::from("b")), Some(7));
    assert_eq!(code.lookup_export(&String::from("a")), Some(4));
    assert_eq!(code.lookup_export(&String::from("c")), None);
}

#[test]
fn dereference_yields_descriptor() {
    let mut vm = machine(Vec::new(), vec![Constant::Int(1)], 1);
    assert_eq!(vm.write_register(global(0), Constant::Address(local(3))), Ok(()));
    assert_eq!(vm.dereference_register(0, &RegisterLocation::Global), Ok(local(3)));
}

#[test]
fn dereference_errors() {
    let mut vm = machine(Vec::new(), vec![Constant::Int(1)], 1);
    assert_eq!(vm.dereference_register(0, &RegisterLocation::Global), Err(VmError::UninitializedRegister));
    assert_eq!(vm.write_register(global(0), Constant::Int(9)), Ok(()));
    assert_eq!(vm.dereference_register(0, &RegisterLocation::Global), Err(VmError::InvalidDereference));
    assert_eq!(vm.dereference_register(0, &RegisterLocation::ConstantPool), Err(VmError::InvalidDereference));
    assert_eq!(vm.dereference_register(0, &RegisterLocation::Local), Err(VmError::NoStackFrame));
}

#[test]
fn division_by_zero_leaves_destination_unwritten() {
    let mut vm = machine(
        vec![Instruction::Alloc(1), Instruction::Div(local(0), pool(0), pool(1))],
        vec![Constant::Int(10), Constant::Int(0)],
        0,
    );
    assert_eq!(vm.execute_instruction(0, 100), Err(VmError::DivisionByZero));
    assert_eq!(vm.cpy_local(0), Err(VmError::UninitializedRegister));
    assert_eq!(vm.pc, 1);
}

#[test]
fn modulo_by_zero_fails() {
    let mut vm = machine(
        vec![Instruction::Alloc(1), Instruction::Mod(local(0), pool(0), pool(1))],
        vec![Constant::Int(10), Constant::Int(0)],
        0,
    );
    assert_eq!(vm.execute_instruction(0, 100), Err(VmError::DivisionByZero));
}

#[test]
fn copy_write_then_reads() {
    let mut vm = machine(vec![Instruction::Alloc(2)], Vec::new(), 2);
    assert_eq!(vm.execute_instruction(0, 10), Ok(Halt::Returned));
    for reg in [global(1), local(1)] {
        assert_eq!(vm.write_register(reg, Constant::Int(42)), Ok(()));
        assert_eq!(vm.read_register(reg), Ok(Constant::Int(42)));
        assert_eq!(vm.read_register(reg), Ok(Constant::Int(42)));
        assert_eq!(vm.take_register(reg), Ok(Constant::Int(42)));
        assert_eq!(vm.read_register(reg), Err(VmError::UninitializedRegister));
        assert_eq!(vm.take_register(reg), Err(VmError::UninitializedRegister));
    }
    assert_eq!(vm.write_register(global(0), Constant::Int(-5)), Ok(()));
    assert_eq!(vm.ref_global(0), Ok(&Constant::Int(-5)));
    assert_eq!(vm.cpy_global(0), Ok(Constant::Int(-5)));
    assert_eq!(vm.mov_global(0), Ok(Constant::Int(-5)));
    assert_eq!(vm.ref_global(0), Err(VmError::UninitializedRegister));
    assert_eq!(vm.write_register(local(0), Constant::Int(8)), Ok(()));
    assert_eq!(vm.ref_local(0), Ok(&Constant::Int(8)));
    assert_eq!(vm.mov_local(0), Ok(Constant::Int(8)));
    assert_eq!(vm.cpy_local(0), Err(VmError::UninitializedRegister));
}

#[test]
fn register_access_errors() {
    let mut vm = machine(Vec::new(), vec![Constant::Int(1)], 1);
    assert_eq!(vm.cpy_global(1), Err(VmError::RegisterOutOfRange));
    assert_eq!(vm.cpy_local(0), Err(VmError::NoStackFrame));
    assert_eq!(vm.mov_local(0), Err(VmError::NoStackFrame));
    assert_eq!(vm.cpy_constant(0), Ok(Constant::Int(1)));
    assert_eq!(vm.ref_constant(0), Ok(&Constant::Int(1)));
    assert_eq!(vm.cpy_constant(1), Err(VmError::RegisterOutOfRange));
    assert_eq!(vm.take_register(pool(0)), Err(VmError::InvalidAccessMode));
    assert_eq!(vm.take_register(accu()), Err(VmError::InvalidAccessMode));
    assert_eq!(vm.write_register(pool(0), Constant::Int(3)), Err(VmError::InvalidAccessMode));
    assert_eq!(vm.write_register(accu(), Constant::Address(global(0))), Err(VmError::NonNumericOperand));
    assert!(vm.ref_stack_frame().is_err());
    assert!(vm.ref_stack_frame_imut().is_err());
}

#[test]
fn stack_frame_borrow_changes_active_frame() {
    let mut vm = machine(vec![Instruction::Alloc(1), Instruction::Alloc(2)], Vec::new(), 0);
    assert_eq!(vm.execute_instruction(0, 10), Ok(Halt::Returned));
    match vm.ref_stack_frame() {
        Ok(frame) => {
            assert_eq!(frame.set_register(1, Constant::Int(6)), Ok(()));
        }
        Err(_) => panic!("expected a frame"),
    }
    assert_eq!(vm.cpy_local(1), Ok(Constant::Int(6)));
    assert_eq!(vm.ref_stack_frame_imut().map(|f| f.registers.len()), Ok(2));
}

#[test]
fn jump_forward_and_backward() {
    let mut vm = machine(
        vec![Instruction::Jump(2), Instruction::Ret, Instruction::Jump(-1)],
        Vec::new(),
        0,
    );
    assert_eq!(vm.step(), Ok(resurgence::Event::Continue));
    assert_eq!(vm.pc, 2);
    assert_eq!(vm.step(), Ok(resurgence::Event::Continue));
    assert_eq!(vm.pc, 1);
    assert_eq!(vm.step(), Ok(resurgence::Event::Finished));
}

#[test]
fn jump_before_start_fails() {
    let mut vm = machine(vec![Instruction::Jump(-5)], Vec::new(), 0);
    assert_eq!(vm.execute_instruction(0, 10), Err(VmError::InvalidJumpTarget));
    assert_eq!(vm.pc, 0);
}

fn skipped(ins: Instruction, a: Constant, b: Constant) -> Result<bool, VmError> {
    let mut vm = machine(vec![ins, Instruction::Ret, Instruction::Ret], vec![a, b], 0);
    vm.step().map(|_| vm.pc == 2)
}

#[test]
fn comparisons_skip_iff_relation_holds() {
    let (lhs, rhs) = (pool(0), pool(1));
    let cases: Vec<(Instruction, i64, i64, bool)> = vec![
        (Instruction::Equal(lhs, rhs), 5, 5, true),
        (Instruction::Equal(lhs, rhs), 5, 6, false),
        (Instruction::NotEqual(lhs, rhs), 5, 6, true),
        (Instruction::NotEqual(lhs, rhs), 5, 5, false),
        (Instruction::Greater(lhs, rhs), 7, 3, true),
        (Instruction::Greater(lhs, rhs), 3, 3, false),
        (Instruction::Less(lhs, rhs), -2, 3, true),
        (Instruction::Less(lhs, rhs), 3, 3, false),
        (Instruction::GreaterEqual(lhs, rhs), 3, 3, true),
        (Instruction::GreaterEqual(lhs, rhs), 2, 3, false),
        (Instruction::LessEqual(lhs, rhs), 3, 3, true),
        (Instruction::LessEqual(lhs, rhs), 4, 3, false),
    ];
    for (ins, x, y, expected) in cases {
        assert_eq!(skipped(ins, Constant::Int(x), Constant::Int(y)), Ok(expected));
    }
}

#[test]
fn comparing_addresses() {
    let a = Constant::Address(global(0));
    let b = Constant::Address(global(1));
    assert_eq!(skipped(Instruction::Equal(pool(0), pool(1)), a, a), Ok(true));
    assert_eq!(skipped(Instruction::NotEqual(pool(0), pool(1)), a, b), Ok(true));
    assert_eq!(skipped(Instruction::Less(pool(0), pool(1)), a, b), Err(VmError::NonNumericOperand));
}

#[test]
fn frame_alloc_then_free_restores_frame() {
    let mut vm = machine(
        vec![Instruction::Alloc(2), Instruction::FrameAlloc(3), Instruction::FrameFree(3)],
        vec![Constant::Int(1)],
        0,
    );
    assert!(vm.step().is_ok());
    assert_eq!(vm.write_register(local(1), Constant::Int(11)), Ok(()));
    assert!(vm.step().is_ok());
    assert_eq!(vm.call_stack[0].registers.len(), 5);
    assert!(vm.step().is_ok());
    assert_eq!(vm.call_stack[0].registers, vec![None, Some(Constant::Int(11))]);
}

#[test]
fn frame_free_underflow() {
    let mut vm = machine(vec![Instruction::Alloc(3), Instruction::FrameFree(4)], Vec::new(), 0);
    assert_eq!(vm.execute_instruction(0, 10), Err(VmError::FrameUnderflow));
    assert_eq!(vm.call_stack[0].registers.len(), 3);
    let mut vm = machine(vec![Instruction::Alloc(1), Instruction::Free(2)], Vec::new(), 0);
    assert_eq!(vm.execute_instruction(0, 10), Err(VmError::FrameUnderflow));
    assert_eq!(vm.call_stack.len(), 1);
    let mut vm = machine(vec![Instruction::FrameAlloc(1)], Vec::new(), 0);
    assert_eq!(vm.execute_instruction(0, 10), Err(VmError::NoStackFrame));
}

#[test]
fn free_pops_frames() {
    let mut vm = machine(
        vec![Instruction::Alloc(1), Instruction::Alloc(2), Instruction::Alloc(3), Instruction::Free(2)],
        Vec::new(),
        0,
    );
    assert_eq!(vm.execute_instruction(0, 10), Ok(Halt::Returned));
    assert_eq!(vm.call_stack.len(), 1);
    assert_eq!(vm.call_stack[0].registers.len(), 1);
}

#[test]
fn wrapping_arithmetic() {
    let cases: Vec<(Instruction, i64, i64, i64)> = vec![
        (Instruction::Add(global(0), pool(0), pool(1)), i64::MAX, 1, i64::MIN),
        (Instruction::Sub(global(0), pool(0), pool(1)), i64::MIN, 1, i64::MAX),
        (Instruction::Mul(global(0), pool(0), pool(1)), 6, -7, -42),
        (Instruction::Div(global(0), pool(0), pool(1)), -7, 2, -3),
        (Instruction::Div(global(0), pool(0), pool(1)), i64::MIN, -1, i64::MIN),
        (Instruction::Mod(global(0), pool(0), pool(1)), -7, 2, -1),
        (Instruction::Mod(global(0), pool(0), pool(1)), i64::MIN, -1, 0),
        (Instruction::Sub(global(0), pool(0), pool(1)), 10, 4, 6),
    ];
    for (ins, x, y, expected) in cases {
        let mut vm = machine(vec![ins], vec![Constant::Int(x), Constant::Int(y)], 1);
        assert_eq!(vm.execute_instruction(0, 10), Ok(Halt::Returned));
        assert_eq!(vm.cpy_global(0), Ok(Constant::Int(expected)));
    }
}

#[test]
fn arithmetic_on_address_fails() {
    let mut vm = machine(
        vec![Instruction::Add(global(0), pool(0), pool(1))],
        vec![Constant::Int(1), Constant::Address(global(0))],
        1,
    );
    assert_eq!(vm.execute_instruction(0, 10), Err(VmError::NonNumericOperand));
}

#[test]
fn accumulator_operands() {
    let mut vm = machine(
        vec![
            Instruction::Add(accu(), pool(0), pool(1)),
            Instruction::Mul(global(0), accu(), accu()),
        ],
        vec![Constant::Int(2), Constant::Int(3)],
        1,
    );
    assert_eq!(vm.execute_instruction(0, 10), Ok(Halt::Returned));
    assert_eq!(vm.accumulator, 5);
    assert_eq!(vm.cpy_global(0), Ok(Constant::Int(25)));
    assert_eq!(vm.get_constants(&accu(), &pool(1)), Ok((Constant::Int(5), Constant::Int(3))));
    assert_eq!(vm.accumulator_as_const, Constant::Int(5));
    assert_eq!(vm.get_constants(&global(0), &local(0)), Err(VmError::NoStackFrame));
}

#[test]
fn accu_const_refreshes_wrapper() {
    let mut vm = Interpreter::new();
    vm.accumulator = 17;
    vm.accu_const();
    assert_eq!(vm.accumulator_as_const, Constant::Int(17));
}

#[test]
fn mov_cpy_ref_between_registers() {
    let asis = RegisterReference::AsIs;
    let mut vm = machine(
        vec![
            Instruction::Alloc(3),
            Instruction::Cpy(local(0), asis, pool(0), asis),
            Instruction::Mov(local(1), asis, local(0), asis),
            Instruction::Ref(global(0), asis, local(1), asis),
            Instruction::Cpy(local(2), asis, global(0), RegisterReference::Dereference),
            Instruction::Cpy(global(0), RegisterReference::Dereference, pool(0), asis),
        ],
        vec![Constant::Int(9)],
        1,
    );
    assert_eq!(vm.execute_instruction(0, 20), Ok(Halt::Returned));
    assert_eq!(vm.cpy_local(0), Err(VmError::UninitializedRegister));
    assert_eq!(vm.cpy_local(1), Ok(Constant::Int(9)));
    assert_eq!(vm.cpy_global(0), Ok(Constant::Address(local(1))));
    assert_eq!(vm.cpy_local(2), Ok(Constant::Int(9)));
}

#[test]
fn mov_from_constant_pool_is_refused() {
    let asis = RegisterReference::AsIs;
    let mut vm = machine(
        vec![Instruction::Alloc(1), Instruction::Mov(local(0), asis, pool(0), asis)],
        vec![Constant::Int(9)],
        0,
    );
    assert_eq!(vm.execute_instruction(0, 20), Err(VmError::InvalidAccessMode));
    assert_eq!(vm.cpy_local(0), Err(VmError::UninitializedRegister));
}

#[test]
fn mov_into_bad_destination_keeps_source() {
    let asis = RegisterReference::AsIs;
    let mut vm = machine(
        vec![Instruction::Alloc(1), Instruction::Mov(local(5), asis, global(0), asis)],
        Vec::new(),
        1,
    );
    assert_eq!(vm.write_register(global(0), Constant::Int(4)), Ok(()));
    assert_eq!(vm.execute_instruction(0, 20), Err(VmError::RegisterOutOfRange));
    assert_eq!(vm.cpy_global(0), Ok(Constant::Int(4)));
}

#[test]
fn operand_stack_instructions() {
    let asis = RegisterReference::AsIs;
    let mut vm = machine(
        vec![
            Instruction::StackPush(pool(0), asis),
            Instruction::StackMov(global(0), asis),
            Instruction::StackPop,
            Instruction::StackPop,
            Instruction::StackPop,
            Instruction::StackPush(pool(1), asis),
        ],
        vec![Constant::Int(1), Constant::Int(2)],
        1,
    );
    assert_eq!(vm.write_register(global(0), Constant::Int(3)), Ok(()));
    assert_eq!(vm.execute_instruction(0, 2), Ok(Halt::StepLimit));
    assert_eq!(vm.stack, vec![Constant::Int(1), Constant::Int(3)]);
    assert_eq!(vm.cpy_global(0), Err(VmError::UninitializedRegister));
    assert_eq!(vm.run(10), Ok(Halt::Returned));
    assert_eq!(vm.stack, vec![Constant::Int(2)]);
}

#[test]
fn call_returns_to_caller() {
    let mut vm = machine(
        vec![
            Instruction::Call(3),
            Instruction::Add(global(0), global(0), pool(1)),
            Instruction::Ret,
            Instruction::Cpy(global(0), RegisterReference::AsIs, pool(0), RegisterReference::AsIs),
            Instruction::Ret,
        ],
        vec![Constant::Int(10), Constant::Int(1)],
        1,
    );
    assert_eq!(vm.execute_instruction(0, 100), Ok(Halt::Returned));
    assert_eq!(vm.cpy_global(0), Ok(Constant::Int(11)));
    assert_eq!(vm.pc, 2);
}

#[test]
fn call_returns_at_sequence_end() {
    let mut vm = machine(
        vec![
            Instruction::Call(2),
            Instruction::Ret,
            Instruction::Cpy(global(0), RegisterReference::AsIs, pool(0), RegisterReference::AsIs),
        ],
        vec![Constant::Int(10)],
        1,
    );
    assert_eq!(vm.execute_instruction(0, 100), Ok(Halt::Returned));
    assert_eq!(vm.cpy_global(0), Ok(Constant::Int(10)));
    assert_eq!(vm.pc, 1);
}

#[test]
fn external_call_hands_value_and_resumes() {
    let mut vm = machine(
        vec![Instruction::ExtCall(pool(0)), Instruction::Alloc(1), Instruction::Ret],
        vec![Constant::Int(77)],
        0,
    );
    assert_eq!(vm.execute_instruction(0, 100), Ok(Halt::ExternalCall(Constant::Int(77))));
    assert_eq!(vm.pc, 1);
    assert_eq!(vm.run(100), Ok(Halt::Returned));
    assert_eq!(vm.call_stack.len(), 1);
}

#[test]
fn step_limit_stops_endless_loop() {
    let mut vm = machine(vec![Instruction::Jump(0)], Vec::new(), 0);
    assert_eq!(vm.execute_instruction(0, 50), Ok(Halt::StepLimit));
    assert_eq!(vm.pc, 0);
}

#[test]
fn stack_frame_methods() {
    let mut f = resurgence::StackFrame::new(2);
    assert_eq!(f.registers, vec![None, None]);
    f.grow(1);
    assert_eq!(f.registers.len(), 3);
    assert_eq!(f.set_register(2, Constant::Int(1)), Ok(()));
    assert_eq!(f.set_register(3, Constant::Int(1)), Err(VmError::RegisterOutOfRange));
    assert_eq!(f.cpy_register(2), Ok(Constant::Int(1)));
    assert_eq!(f.mov_register(2), Ok(Constant::Int(1)));
    assert_eq!(f.ref_register(2), Err(VmError::UninitializedRegister));
    assert_eq!(f.shrink(4), Err(VmError::FrameUnderflow));
    assert_eq!(f.shrink(1), Ok(()));
    assert_eq!(f.registers.len(), 2);
}
