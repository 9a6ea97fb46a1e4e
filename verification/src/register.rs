//! The register file: 32 general-purpose 32-bit registers, with index 0
//! hardwired to zero — it always reads as 0 and writes to it are silently
//! discarded.

use vstd::prelude::*;

verus! {

/// What a write does to the register file, as seen through its view: index 0
/// is a sink, every other index stores unconditionally.
pub open spec fn write_reg(regs: Seq<u32>, rd: int, v: u32) -> Seq<u32> {
    if rd == 0 {
        regs
    } else {
        regs.update(rd, v)
    }
}

#[derive(Debug)]
pub struct Register {
    reg: Vec<u32>,
}

impl View for Register {
    type V = Seq<u32>;

    closed spec fn view(&self) -> Seq<u32> {
        self.reg@
    }
}

impl Register {
    /// Well-formedness: 32 registers, and the hardwired zero holds zero.
    pub open spec fn wf(&self) -> bool {
        self@.len() == 32 && self@[0] == 0
    }

    /// A fresh register file, all registers zero.
    pub fn new() -> (r: Register)
        ensures
            r.wf(),
            forall|i: int| 0 <= i < 32 ==> r@[i] == 0u32,
    {
        let mut reg: Vec<u32> = Vec::new();
        let mut i: usize = 0;
        while i < 32
            invariant
                i <= 32,
                reg@.len() == i,
                forall|k: int| 0 <= k < i ==> reg@[k] == 0u32,
            decreases 32 - i,
        {
            reg.push(0u32);
            i = i + 1;
        }
        Register { reg }
    }

    /// The value a register holds. The index range is a caller contract: the
    /// decoder only produces indices 0–31.
    pub fn read(&self, register: usize) -> (v: u32)
        requires
            self.wf(),
            register < 32,
        ensures
            v == self@[register as int],
            register == 0 ==> v == 0,
    {
        self.reg[register]
    }

    /// Stores `value`, except that index 0 is a no-op.
    pub fn write(&mut self, register: usize, value: u32)
        requires
            old(self).wf(),
            register < 32,
        ensures
            final(self).wf(),
            final(self)@ == write_reg(old(self)@, register as int, value),
    {
        if register != 0 {
            self.reg[register] = value;
        }
    }
}

/// A write to index `i` followed by a read of `i` returns the written value
/// for indices 1–31, and 0 for index 0 regardless of what was written; the
/// file stays well-formed.
pub proof fn lemma_write_then_read(regs: Seq<u32>, i: int, v: u32)
    requires
        regs.len() == 32,
        regs[0] == 0,
        0 <= i < 32,
    ensures
        write_reg(regs, i, v)[i] == if i == 0 {
            0u32
        } else {
            v
        },
        write_reg(regs, i, v).len() == 32,
        write_reg(regs, i, v)[0] == 0,
{
}

} // verus!
