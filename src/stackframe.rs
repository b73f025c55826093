use vstd::prelude::*;

use crate::constant::Constant;
use crate::error::VmError;

verus! {

/// What reading slot `i` of a slot sequence gives.
pub open spec fn read_slot(slots: Seq<Option<Constant>>, i: int) -> Result<Constant, VmError> {
    if i < 0 || i >= slots.len() {
        Err(VmError::RegisterOutOfRange)
    } else {
        match slots[i] {
            Some(c) => Ok(c),
            None => Err(VmError::UninitializedRegister),
        }
    }
}

/// `n` empty slots.
pub open spec fn empty_slots(n: nat) -> Seq<Option<Constant>> {
    Seq::new(n, |i: int| None::<Constant>)
}

/// The local register slots of one call activation.
#[derive(Clone, Debug)]
pub struct StackFrame {
    pub registers: Vec<Option<Constant>>,
}

impl StackFrame {
    /// A frame of `size` empty slots.
    pub fn new(size: usize) -> (r: StackFrame)
        ensures
            r.registers@ == empty_slots(size as nat),
    {
        let mut f = StackFrame { registers: Vec::new() };
        f.grow(size);
        f
    }

    /// Appends `count` empty slots.
    pub fn grow(&mut self, count: usize)
        ensures
            final(self).registers@ == old(self).registers@ + empty_slots(count as nat),
    {
        let mut k: usize = 0;
        while k < count
            invariant
                k <= count,
                self.registers@ == old(self).registers@ + empty_slots(k as nat),
            decreases count - k,
        {
            self.registers.push(None);
            k = k + 1;
            assert(self.registers@ =~= old(self).registers@ + empty_slots(k as nat));
        }
    }

    /// Removes the last `count` slots; fails, changing nothing, when fewer exist.
    pub fn shrink(&mut self, count: usize) -> (r: Result<(), VmError>)
        ensures
            count > old(self).registers@.len() ==> r == Err::<(), VmError>(VmError::FrameUnderflow)
                && final(self).registers@ == old(self).registers@,
            count <= old(self).registers@.len() ==> r is Ok && final(self).registers@
                == old(self).registers@.subrange(0, old(self).registers@.len() - count),
    {
        if count > self.registers.len() {
            return Err(VmError::FrameUnderflow);
        }
        let target = self.registers.len() - count;
        self.registers.truncate(target);
        Ok(())
    }

    /// Takes the value out of slot `index`, leaving it empty.
    pub fn mov_register(&mut self, index: usize) -> (r: Result<Constant, VmError>)
        ensures
            r == read_slot(old(self).registers@, index as int),
            r is Ok ==> final(self).registers@ == old(self).registers@.update(index as int, None),
            r is Err ==> final(self).registers@ == old(self).registers@,
    {
        if index >= self.registers.len() {
            return Err(VmError::RegisterOutOfRange);
        }
        match self.registers[index] {
            Some(c) => {
                self.registers.set(index, None);
                Ok(c)
            },
            None => Err(VmError::UninitializedRegister),
        }
    }

    /// A copy of the value in slot `index`.
    pub fn cpy_register(&self, index: usize) -> (r: Result<Constant, VmError>)
        ensures
            r == read_slot(self.registers@, index as int),
    {
        match self.ref_register(index) {
            Ok(c) => Ok(*c),
            Err(e) => Err(e),
        }
    }

    /// A borrow of the value in slot `index`.
    pub fn ref_register(&self, index: usize) -> (r: Result<&Constant, VmError>)
        ensures
            match r {
                Ok(c) => read_slot(self.registers@, index as int) == Ok::<Constant, VmError>(*c),
                Err(e) => read_slot(self.registers@, index as int) == Err::<Constant, VmError>(e),
            },
    {
        if index >= self.registers.len() {
            return Err(VmError::RegisterOutOfRange);
        }
        match &self.registers[index] {
            Some(c) => Ok(c),
            None => Err(VmError::UninitializedRegister),
        }
    }

    /// Writes `value` into slot `index`, replacing what was there.
    pub fn set_register(&mut self, index: usize, value: Constant) -> (r: Result<(), VmError>)
        ensures
            index < old(self).registers@.len() ==> r is Ok && final(self).registers@
                == old(self).registers@.update(index as int, Some(value)),
            index >= old(self).registers@.len() ==> r == Err::<(), VmError>(
                VmError::RegisterOutOfRange,
            ) && final(self).registers@ == old(self).registers@,
    {
        if index >= self.registers.len() {
            return Err(VmError::RegisterOutOfRange);
        }
        self.registers.set(index, Some(value));
        Ok(())
    }
}

} // verus!
