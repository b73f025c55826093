use vstd::prelude::*;

verus! {

/// The storage kind that a register index is looked up in.
#[derive(Clone, Copy, Debug, PartialEq, Eq, Structural)]
pub enum RegisterLocation {
    ConstantPool,
    Accumulator,
    Global,
    Local,
}

/// An addressing descriptor: an index together with the storage kind it refers to.
/// It names where a value lives, never the value itself.
#[derive(Clone, Copy, Debug, PartialEq, Eq, Structural)]
pub struct Register(pub usize, pub RegisterLocation);

/// Whether an operand names its register directly, or names a register whose
/// content is an address to follow.
#[derive(Clone, Copy, Debug, PartialEq, Eq, Structural)]
pub enum RegisterReference {
    AsIs,
    Dereference,
}

impl Register {
    /// Global and local registers are the ones that can be moved out of and written.
    pub open spec fn is_mutable_location(self) -> bool {
        self.1 is Global || self.1 is Local
    }
}

} // verus!
