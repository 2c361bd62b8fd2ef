//! The 32 general-purpose registers of a hart, as saved on a trap, and the registers
//! that the system-call convention reads: `a7` (x17) holds the call number, `a0`..`a2`
//! (x10..x12) its arguments, `a0` its result, and `sp` (x2) the stack pointer.
use vstd::prelude::*;

verus! {

/// Index of `sp`.
pub const SP: usize = 2;

/// Index of `a0`, the first argument and the return value.
pub const A0: usize = 10;

/// Index of `a7`, the call number.
pub const A7: usize = 17;

/// The call number held in the registers `regs`.
pub open spec fn spec_iid(regs: Seq<usize>) -> usize {
    regs[17]
}

/// The return value held in the registers `regs`.
pub open spec fn spec_iret(regs: Seq<usize>) -> usize {
    regs[10]
}

/// The three call arguments held in the registers `regs`.
pub open spec fn spec_iarg(regs: Seq<usize>) -> Seq<usize> {
    seq![regs[10], regs[11], regs[12]]
}

/// The return value reads back what was written to `a0`, and writing `a0` or `sp`
/// leaves the other system-call registers as they were.
pub proof fn lemma_register_writes(regs: Seq<usize>, value: usize)
    requires
        regs.len() == 32,
    ensures
        spec_iret(regs.update(10, value)) == value,
        spec_iid(regs.update(10, value)) == spec_iid(regs),
        spec_iarg(regs.update(10, value)) == seq![value, regs[11], regs[12]],
        spec_iret(regs.update(2, value)) == spec_iret(regs),
        spec_iid(regs.update(2, value)) == spec_iid(regs),
        spec_iarg(regs.update(2, value)) == spec_iarg(regs),
{
    assert(spec_iarg(regs.update(10, value)) =~= seq![value, regs[11], regs[12]]);
    assert(spec_iarg(regs.update(2, value)) =~= spec_iarg(regs));
}

/// Reading back a full register file: the call number is the whole word last written to
/// `a7`, the return value the whole word last written to `a0`, and the arguments the
/// words last written to `a0`, `a1`, `a2`, in that order, whatever their values.
pub proof fn lemma_call_registers_read_back(regs: Seq<usize>, number: usize, a0: usize, a1: usize, a2: usize)
    requires
        regs.len() == 32,
    ensures
        spec_iid(regs.update(17, number)) == number,
        spec_iret(regs.update(10, a0)) == a0,
        spec_iarg(regs.update(10, a0).update(11, a1).update(12, a2)) == seq![a0, a1, a2],
        spec_iid(regs.update(10, a0).update(11, a1).update(12, a2)) == spec_iid(regs),
{
    assert(spec_iarg(regs.update(10, a0).update(11, a1).update(12, a2)) =~= seq![a0, a1, a2]);
}

/// A saved register file.
pub struct DataReg(pub [usize; 32]);

impl View for DataReg {
    type V = Seq<usize>;

    open spec fn view(&self) -> Seq<usize> {
        self.0@
    }
}

impl DataReg {
    /// All registers zero.
    pub fn empty() -> (r: DataReg)
        ensures
            r@ == Seq::new(32, |i: int| 0usize),
    {
        let r = DataReg([0usize; 32]);
        assert(r@ =~= Seq::new(32, |i: int| 0usize));
        r
    }

    pub fn iid(&self) -> (r: usize)
        ensures
            r == spec_iid(self@),
            r == self@[17],
    {
        self.0[A7]
    }

    pub fn iret(&self) -> (r: usize)
        ensures
            r == spec_iret(self@),
            r == self@[10],
    {
        self.0[A0]
    }

    pub fn iret_set(&mut self, value: usize)
        ensures
            final(self)@ == old(self)@.update(10, value),
    {
        self.0[A0] = value;
    }

    pub fn iarg(&self) -> (r: [usize; 3])
        ensures
            r@ == spec_iarg(self@),
            r@ == seq![self@[10], self@[11], self@[12]],
    {
        let r = [self.0[10], self.0[11], self.0[12]];
        assert(r@ =~= spec_iarg(self@));
        r
    }

    pub fn sp_set(&mut self, value: usize)
        ensures
            final(self)@ == old(self)@.update(2, value),
    {
        self.0[SP] = value;
    }
}

} // verus!
