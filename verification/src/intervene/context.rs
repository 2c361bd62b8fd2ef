//! The user context saved in the trap page of a thread.
use vstd::prelude::*;
use crate::cpu::data_registers::{spec_iarg, spec_iid, spec_iret, A0, A7, SP};
use crate::cpu::{spec_user_status, user_status};

verus! {

/// The registers, `sstatus` and pc of a thread in user mode.
pub struct UserContext {
    pub x: [usize; 32],
    pub status: u64,
    pub pc: usize,
}

impl UserContext {
    /// Prepares the context to enter user mode at `entry` with stack pointer `sp`; `status`
    /// is the `sstatus` value read from the hart.
    pub fn init(&mut self, status: u64, entry: usize, sp: usize)
        ensures
            final(self).x@ == Seq::new(32, |i: int| 0usize).update(2, sp),
            final(self).status == spec_user_status(status),
            final(self).pc == entry,
    {
        self.x = [0usize; 32];
        self.status = user_status(status);
        self.pc = entry;
        self.sp_set(sp);
        assert(self.x@ =~= Seq::new(32, |i: int| 0usize).update(2, sp));
    }

    /// Moves the pc forward by `value` bytes.
    pub fn pc_add(&mut self, value: usize)
        requires
            old(self).pc + value <= usize::MAX,
        ensures
            final(self).pc == old(self).pc + value,
            final(self).x == old(self).x,
            final(self).status == old(self).status,
    {
        self.pc += value;
    }

    pub fn iid(&self) -> (r: usize)
        ensures
            r == spec_iid(self.x@),
            r == self.x@[17],
    {
        self.x[A7]
    }

    pub fn iret(&self) -> (r: usize)
        ensures
            r == spec_iret(self.x@),
            r == self.x@[10],
    {
        self.x[A0]
    }

    pub fn iret_set(&mut self, value: usize)
        ensures
            final(self).x@ == old(self).x@.update(10, value),
            final(self).status == old(self).status,
            final(self).pc == old(self).pc,
    {
        self.x[A0] = value;
    }

    pub fn iarg(&self) -> (r: [usize; 3])
        ensures
            r@ == spec_iarg(self.x@),
            r@ == seq![self.x@[10], self.x@[11], self.x@[12]],
    {
        let r = [self.x[10], self.x[11], self.x[12]];
        assert(r@ =~= spec_iarg(self.x@));
        r
    }

    pub fn sp_set(&mut self, value: usize)
        ensures
            final(self).x@ == old(self).x@.update(2, value),
            final(self).status == old(self).status,
            final(self).pc == old(self).pc,
    {
        self.x[SP] = value;
    }
}

} // verus!
