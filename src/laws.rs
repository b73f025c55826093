use vstd::prelude::*;

use crate::constant::{CmpOp, Constant};
use crate::error::VmError;
use crate::instruction::Instruction;
use crate::register::Register;
use crate::stackframe::empty_slots;
use crate::state::{Event, VmState};

verus! {

/// Whether a comparison relation holds between two integers.
pub open spec fn relation_holds(op: CmpOp, x: i64, y: i64) -> bool {
    match op {
        CmpOp::Equal => x == y,
        CmpOp::NotEqual => x != y,
        CmpOp::Greater => x > y,
        CmpOp::Less => x < y,
        CmpOp::GreaterEqual => x >= y,
        CmpOp::LessEqual => x <= y,
    }
}

/// The relation and operands of a comparison instruction.
pub open spec fn comparison_of(ins: Instruction) -> Option<(CmpOp, Register, Register)> {
    match ins {
        Instruction::Equal(a, b) => Some((CmpOp::Equal, a, b)),
        Instruction::NotEqual(a, b) => Some((CmpOp::NotEqual, a, b)),
        Instruction::Greater(a, b) => Some((CmpOp::Greater, a, b)),
        Instruction::Less(a, b) => Some((CmpOp::Less, a, b)),
        Instruction::GreaterEqual(a, b) => Some((CmpOp::GreaterEqual, a, b)),
        Instruction::LessEqual(a, b) => Some((CmpOp::LessEqual, a, b)),
        _ => None,
    }
}

/// A value written to a register reads back, by copy or borrow, as itself.
pub proof fn lemma_write_then_read(s: VmState, r: Register, v: Constant)
    requires
        s.write(r, v) is Ok,
    ensures
        s.write(r, v)->Ok_0.read(r) == Ok::<Constant, VmError>(v),
{
}

/// After a write, moving out of a global or local register gives the written
/// value once, and leaves the slot empty: the next read fails as uninitialized.
pub proof fn lemma_write_then_move(s: VmState, r: Register, v: Constant)
    requires
        s.write(r, v) is Ok,
        r.is_mutable_location(),
    ensures
        s.write(r, v)->Ok_0.take(r) is Ok,
        s.write(r, v)->Ok_0.take(r)->Ok_0.1 == v,
        s.write(r, v)->Ok_0.take(r)->Ok_0.0.read(r) == Err::<Constant, VmError>(
            VmError::UninitializedRegister,
        ),
        s.write(r, v)->Ok_0.take(r)->Ok_0.0.take(r) == Err::<(VmState, Constant), VmError>(
            VmError::UninitializedRegister,
        ),
{
}

/// A jump from index `pc` continues at exactly `pc + offset`, forward or back,
/// and a target outside the index range is refused.
pub proof fn lemma_jump_target(s: VmState, offset: i64)
    requires
        0 <= s.pc < s.code.len(),
        s.code[s.pc] == Instruction::Jump(offset),
    ensures
        0 <= s.pc + offset <= usize::MAX ==> s.step() == Ok::<(VmState, Event), VmError>(
            (VmState { pc: s.pc + offset, ..s }, Event::Continue),
        ),
        !(0 <= s.pc + offset <= usize::MAX) ==> s.step() == Err::<(VmState, Event), VmError>(
            VmError::InvalidJumpTarget,
        ),
{
}

/// A comparison of two integers skips the next instruction exactly when its
/// relation holds, and otherwise falls through to it; nothing else changes.
pub proof fn lemma_compare_skips(s: VmState, x: i64, y: i64)
    requires
        0 <= s.pc < s.code.len(),
        comparison_of(s.code[s.pc]) is Some,
        s.read(comparison_of(s.code[s.pc])->Some_0.1) == Ok::<Constant, VmError>(Constant::Int(x)),
        s.read(comparison_of(s.code[s.pc])->Some_0.2) == Ok::<Constant, VmError>(Constant::Int(y)),
    ensures
        s.step() == Ok::<(VmState, Event), VmError>(
            (
                s.advance(
                    if relation_holds(comparison_of(s.code[s.pc])->Some_0.0, x, y) {
                        2
                    } else {
                        1
                    },
                ),
                Event::Continue,
            ),
        ),
{
}

/// `Alloc(n)` pushes a frame of `n` empty slots.
pub proof fn lemma_alloc_frame(s: VmState, n: usize)
    requires
        0 <= s.pc < s.code.len(),
        s.code[s.pc] == Instruction::Alloc(n),
    ensures
        s.step() is Ok,
        s.step()->Ok_0.0.frames == s.frames.push(empty_slots(n as nat)),
{
}

/// `FrameAlloc(m)` followed by `FrameFree(m)` leaves every frame, the active one
/// included, exactly as it was.
pub proof fn lemma_frame_alloc_then_free(s: VmState, m: usize)
    requires
        0 <= s.pc,
        s.pc + 1 < s.code.len(),
        s.code[s.pc] == Instruction::FrameAlloc(m),
        s.code[s.pc + 1] == Instruction::FrameFree(m),
        s.frames.len() > 0,
    ensures
        s.step() is Ok,
        s.step()->Ok_0.0.step() is Ok,
        s.step()->Ok_0.0.step()->Ok_0.0.frames == s.frames,
        s.step()->Ok_0.0.step()->Ok_0.0.pc == s.pc + 2,
{
    let s1 = s.step()->Ok_0.0;
    let top1 = s.top() + empty_slots(m as nat);
    assert(s1.top() == top1);
    assert(top1.subrange(0, top1.len() - m) =~= s.top());
    assert(s1.step()->Ok_0.0.frames =~= s.frames);
}

/// Freeing more slots than the active frame holds fails and changes nothing.
pub proof fn lemma_frame_free_underflow(s: VmState, k: usize)
    requires
        0 <= s.pc < s.code.len(),
        s.code[s.pc] == Instruction::FrameFree(k),
        s.frames.len() > 0,
        k > s.top().len(),
    ensures
        s.step() == Err::<(VmState, Event), VmError>(VmError::FrameUnderflow),
{
}

/// Popping more frames than exist fails and changes nothing.
pub proof fn lemma_free_underflow(s: VmState, k: usize)
    requires
        0 <= s.pc < s.code.len(),
        s.code[s.pc] == Instruction::Free(k),
        k > s.frames.len(),
    ensures
        s.step() == Err::<(VmState, Event), VmError>(VmError::FrameUnderflow),
{
}

} // verus!
