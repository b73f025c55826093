use vstd::prelude::*;

verus! {

/// The ways a run, or a single register access, can fail.
#[derive(Clone, Copy, Debug, PartialEq, Eq, Structural)]
pub enum VmError {
    /// An entry point was asked for by a name the export table lacks.
    MissingExport,
    /// A read targeted an empty slot.
    UninitializedRegister,
    /// A register index lies beyond its storage.
    RegisterOutOfRange,
    /// A local register was addressed while no call frame exists.
    NoStackFrame,
    /// Dereferencing a non-address value, or a location other than global or local.
    InvalidDereference,
    /// A move out of, or a write into, a read-only location.
    InvalidAccessMode,
    /// Freeing more frames, or more slots, than exist.
    FrameUnderflow,
    /// Integer division or remainder by zero.
    DivisionByZero,
    /// Arithmetic or ordering asked of an address value.
    NonNumericOperand,
    /// A jump whose target is not a valid instruction index.
    InvalidJumpTarget,
    /// The external call bridge reported a failure, with its own code.
    ExternalCall(u64),
}

} // verus!
