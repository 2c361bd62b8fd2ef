//! The saved user context of a thread: its registers, its `sstatus` and its pc.
use vstd::prelude::*;
use crate::cpu::data_registers::{spec_iarg, spec_iid, spec_iret, A0, A7, SP};

verus! {

/// The user context that a trap saves and a return to user mode restores.
pub struct Context {
    pub data_reg: [usize; 32],
    pub status: u64,
    pub pc: usize,
}

impl Context {
    /// A context that starts at `entry` with status `status` and all registers zero.
    pub fn new(status: u64, entry: usize) -> (r: Context)
        ensures
            r.data_reg@ == Seq::new(32, |i: int| 0usize),
            r.status == status,
            r.pc == entry,
    {
        let r = Context { data_reg: [0usize; 32], status, pc: entry };
        assert(r.data_reg@ =~= Seq::new(32, |i: int| 0usize));
        r
    }
}

/// Accessors of the system-call registers of a `Context`.
pub struct Lib;

impl Lib {
    pub fn iid(context: &Context) -> (r: usize)
        ensures
            r == spec_iid(context.data_reg@),
            r == context.data_reg@[17],
    {
        context.data_reg[A7]
    }

    pub fn iret(context: &Context) -> (r: usize)
        ensures
            r == spec_iret(context.data_reg@),
            r == context.data_reg@[10],
    {
        context.data_reg[A0]
    }

    pub fn iret_set(context: &mut Context, value: usize)
        ensures
            final(context).data_reg@ == old(context).data_reg@.update(10, value),
            final(context).status == old(context).status,
            final(context).pc == old(context).pc,
    {
        context.data_reg[A0] = value;
    }

    pub fn iarg(context: &Context) -> (r: [usize; 3])
        ensures
            r@ == spec_iarg(context.data_reg@),
            r@ == seq![context.data_reg@[10], context.data_reg@[11], context.data_reg@[12]],
    {
        let r = [context.data_reg[10], context.data_reg[11], context.data_reg[12]];
        assert(r@ =~= spec_iarg(context.data_reg@));
        r
    }

    pub fn sp_set(context: &mut Context, value: usize)
        ensures
            final(context).data_reg@ == old(context).data_reg@.update(2, value),
            final(context).status == old(context).status,
            final(context).pc == old(context).pc,
    {
        context.data_reg[SP] = value;
    }
}

} // verus!
