use vstd::prelude::*;

use crate::constant::Constant;
use crate::instruction::Instruction;

verus! {

/// The index that the first entry named `name` in an export table gives.
pub open spec fn find_export(exports: Seq<(String, usize)>, name: Seq<char>) -> Option<usize>
    decreases exports.len(),
{
    if exports.len() == 0 {
        None
    } else if exports[0].0@ == name {
        Some(exports[0].1)
    } else {
        find_export(exports.drop_first(), name)
    }
}

/// A loaded program: its instructions, its read-only constant pool, and the
/// table from exported function names to instruction indices.
#[derive(Clone, Debug)]
pub struct CodeHolder {
    pub instructions: Vec<Instruction>,
    pub constant_pool: Vec<Constant>,
    pub exports: Vec<(String, usize)>,
}

impl CodeHolder {
    pub fn new(
        instructions: Vec<Instruction>,
        constant_pool: Vec<Constant>,
        exports: Vec<(String, usize)>,
    ) -> (r: CodeHolder)
        ensures
            r.instructions@ == instructions@,
            r.constant_pool@ == constant_pool@,
            r.exports@ == exports@,
    {
        CodeHolder { instructions, constant_pool, exports }
    }

    /// The entry index exported under `name`, if any.
    pub fn lookup_export(&self, name: &String) -> (r: Option<usize>)
        ensures
            r == find_export(self.exports@, name@),
    {
        let n = self.exports.len();
        let mut i: usize = 0;
        assert(self.exports@.subrange(0, n as int) =~= self.exports@);
        while i < n
            invariant
                i <= n,
                n == self.exports@.len(),
                find_export(self.exports@.subrange(i as int, n as int), name@) == find_export(
                    self.exports@,
                    name@,
                ),
            decreases n - i,
        {
            let rest = Ghost(self.exports@.subrange(i as int, n as int));
            assert(rest@[0] == self.exports@[i as int]);
            if self.exports[i].0 == *name {
                return Some(self.exports[i].1);
            }
            assert(rest@.drop_first() =~= self.exports@.subrange(i + 1, n as int));
            i = i + 1;
        }
        assert(self.exports@.subrange(n as int, n as int).len() == 0);
        None
    }
}

} // verus!
