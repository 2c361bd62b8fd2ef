//! Peripherals: the interrupt controller and the block device.
use vstd::prelude::*;
use crate::runtime::PLIC_BASE;

pub mod disk;

verus! {

/// Hart context of machine mode at the interrupt controller.
pub const HART_M: usize = 0;

/// Hart context of supervisor mode at the interrupt controller.
pub const HART_S: usize = 1;

/// The device interrupts (source, priority): keyboard, mouse, block device and UART.
pub open spec fn spec_interrupts() -> Seq<(usize, u32)> {
    seq![(5usize, 1u32), (6usize, 1u32), (8usize, 1u32), (10usize, 1u32)]
}

pub fn interrupts() -> (r: Vec<(usize, u32)>)
    ensures
        r@ == spec_interrupts(),
{
    let r = vec![(5usize, 1u32), (6usize, 1u32), (8usize, 1u32), (10usize, 1u32)];
    assert(r@ =~= spec_interrupts());
    r
}

/// A step of setting up the platform-level interrupt controller.
#[derive(Clone, Copy, Debug, PartialEq, Eq, Structural)]
pub enum PlicOp {
    /// Use the controller whose registers start at `base`.
    Init { base: usize },
    /// Mask the interrupts of priority at most `threshold` for hart context `hart`.
    Threshold { hart: usize, threshold: u32 },
    /// Deliver interrupt `source` to hart context `hart`.
    Enable { hart: usize, source: usize },
    /// Give interrupt `source` priority `priority`.
    Priority { source: usize, priority: u32 },
}

/// The steps for the device interrupts `interrupts`, in order: enable each for the
/// supervisor context, then set its priority.
pub open spec fn spec_interrupt_ops(interrupts: Seq<(usize, u32)>) -> Seq<PlicOp>
    decreases interrupts.len(),
{
    if interrupts.len() == 0 {
        Seq::empty()
    } else {
        let last = interrupts.last();
        spec_interrupt_ops(interrupts.drop_last()).push(PlicOp::Enable { hart: HART_S, source: last.0 })
            .push(PlicOp::Priority { source: last.0, priority: last.1 })
    }
}

/// The steps for a table of device interrupts are two per entry, in the table's order:
/// entry `j` is enabled for the supervisor context (`HART_S`, 1) at step `2j`, then given
/// its priority at step `2j + 1`.
pub proof fn lemma_interrupt_ops_per_entry(interrupts: Seq<(usize, u32)>)
    ensures
        spec_interrupt_ops(interrupts).len() == 2 * interrupts.len(),
        forall|j: int| 0 <= j < interrupts.len() ==> #[trigger] spec_interrupt_ops(interrupts)[2 * j]
            == (PlicOp::Enable { hart: 1, source: interrupts[j].0 }),
        forall|j: int| 0 <= j < interrupts.len() ==> #[trigger] spec_interrupt_ops(interrupts)[2 * j + 1]
            == (PlicOp::Priority { source: interrupts[j].0, priority: interrupts[j].1 }),
    decreases interrupts.len(),
{
    if interrupts.len() > 0 {
        let front = interrupts.drop_last();
        lemma_interrupt_ops_per_entry(front);
        let ops = spec_interrupt_ops(interrupts);
        let n = interrupts.len() - 1;
        assert forall|j: int| 0 <= j < interrupts.len() implies #[trigger] ops[2 * j]
            == (PlicOp::Enable { hart: 1, source: interrupts[j].0 }) by {
            if j < n {
                assert(front[j] == interrupts[j]);
                assert(ops[2 * j] == spec_interrupt_ops(front)[2 * j]);
            }
        }
        assert forall|j: int| 0 <= j < interrupts.len() implies #[trigger] ops[2 * j + 1]
            == (PlicOp::Priority { source: interrupts[j].0, priority: interrupts[j].1 }) by {
            if j < n {
                assert(front[j] == interrupts[j]);
                assert(ops[2 * j + 1] == spec_interrupt_ops(front)[2 * j + 1]);
            }
        }
    }
}

/// Peripheral set-up.
pub struct Lib;

impl Lib {
    /// The set-up of the interrupt controller: select it, let machine mode take only
    /// interrupts of priority above 1 and supervisor mode every interrupt, then enable the
    /// device interrupts for supervisor mode with their priorities.
    pub fn init() -> (r: Vec<PlicOp>)
        ensures
            r@ == seq![
                PlicOp::Init { base: PLIC_BASE },
                PlicOp::Threshold { hart: HART_M, threshold: 1 },
                PlicOp::Threshold { hart: HART_S, threshold: 0 },
            ] + spec_interrupt_ops(spec_interrupts()),
            r@.len() == 3 + 2 * spec_interrupts().len(),
            forall|j: int| 0 <= j < spec_interrupts().len() ==> #[trigger] r@[3 + 2 * j]
                == (PlicOp::Enable { hart: 1, source: spec_interrupts()[j].0 }),
            forall|j: int| 0 <= j < spec_interrupts().len() ==> #[trigger] r@[3 + 2 * j + 1]
                == (PlicOp::Priority { source: spec_interrupts()[j].0, priority: spec_interrupts()[j].1 }),
            forall|k: int| 0 <= k < r@.len() && (#[trigger] r@[k] is Enable) ==> r@[k]->Enable_hart == 1,
    {
        let mut ops = Vec::new();
        ops.push(PlicOp::Init { base: PLIC_BASE });
        ops.push(PlicOp::Threshold { hart: HART_M, threshold: 1 });
        ops.push(PlicOp::Threshold { hart: HART_S, threshold: 0 });
        let ghost head = ops@;
        let table = interrupts();
        let mut i: usize = 0;
        while i < table.len()
            invariant
                0 <= i <= table.len(),
                table@ == spec_interrupts(),
                head == seq![
                    PlicOp::Init { base: PLIC_BASE },
                    PlicOp::Threshold { hart: HART_M, threshold: 1 },
                    PlicOp::Threshold { hart: HART_S, threshold: 0 },
                ],
                ops@ == head + spec_interrupt_ops(table@.subrange(0, i as int)),
            decreases table.len() - i,
        {
            let (source, priority) = table[i];
            ops.push(PlicOp::Enable { hart: HART_S, source });
            ops.push(PlicOp::Priority { source, priority });
            proof {
                let s = table@.subrange(0, i as int + 1);
                assert(s.drop_last() =~= table@.subrange(0, i as int));
                assert(s.last() == table@[i as int]);
                assert(ops@ =~= head + spec_interrupt_ops(s));
            }
            i = i + 1;
        }
        assert(table@.subrange(0, table@.len() as int) =~= table@);
        proof {
            lemma_interrupt_ops_per_entry(spec_interrupts());
            let tail = spec_interrupt_ops(spec_interrupts());
            assert forall|j: int| 0 <= j < spec_interrupts().len() implies #[trigger] ops@[3 + 2 * j]
                == (PlicOp::Enable { hart: 1, source: spec_interrupts()[j].0 }) by {
                assert(ops@[3 + 2 * j] == tail[2 * j]);
            }
            assert forall|j: int| 0 <= j < spec_interrupts().len() implies #[trigger] ops@[3 + 2 * j + 1]
                == (PlicOp::Priority { source: spec_interrupts()[j].0, priority: spec_interrupts()[j].1 }) by {
                assert(ops@[3 + 2 * j + 1] == tail[2 * j + 1]);
            }
            assert forall|k: int| 0 <= k < ops@.len() && (#[trigger] ops@[k] is Enable) implies ops@[k]->Enable_hart == 1 by {
                if k >= 3 {
                    let j = (k - 3) / 2;
                    if (k - 3) % 2 == 0 {
                        assert(k == 3 + 2 * j);
                        assert(ops@[3 + 2 * j] == tail[2 * j]);
                    } else {
                        assert(k == 3 + 2 * j + 1);
                        assert(ops@[3 + 2 * j + 1] == tail[2 * j + 1]);
                    }
                }
            }
        }
        ops
    }
}

} // verus!
