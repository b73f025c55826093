//! A register-based bytecode virtual machine core with verified register
//! resolution, call-frame management and instruction dispatch.

pub mod code_holder;
pub mod constant;
pub mod engine;
pub mod error;
pub mod instruction;
pub mod interpreter;
pub mod laws;
pub mod register;
pub mod resolver;
pub mod stackframe;
pub mod state;

pub use code_holder::CodeHolder;
pub use constant::{ArithOp, CmpOp, Constant};
pub use engine::Halt;
pub use error::VmError;
pub use instruction::Instruction;
pub use interpreter::Interpreter;
pub use register::{Register, RegisterLocation, RegisterReference};
pub use stackframe::StackFrame;
pub use state::Event;
