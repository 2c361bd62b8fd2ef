//! The virtio block device: the memory services its driver needs.
use vstd::prelude::*;

verus! {

/// Memory services for the virtio driver. Physical and virtual addresses coincide in the
/// kernel's address space.
pub struct VirtioHal;

impl VirtioHal {
    /// Hands out the contiguous frames `frames` (their numbers, as the frame allocator
    /// returned them) for DMA: they are kept in `holder` so that they stay allocated, and
    /// the number of the first one is returned.
    pub fn dma_alloc(frames: Vec<usize>, holder: &mut Vec<usize>) -> (r: usize)
        requires
            frames.len() > 0,
        ensures
            r == frames@[0],
            final(holder)@ == old(holder)@ + frames@,
    {
        let base = frames[0];
        let mut i: usize = 0;
        while i < frames.len()
            invariant
                0 <= i <= frames.len(),
                holder@ == old(holder)@ + frames@.subrange(0, i as int),
            decreases frames.len() - i,
        {
            holder.push(frames[i]);
            proof {
                assert(frames@.subrange(0, i as int + 1) =~= frames@.subrange(0, i as int).push(frames@[i as int]));
            }
            i = i + 1;
        }
        assert(frames@.subrange(0, frames@.len() as int) =~= frames@);
        base
    }

    /// Frames lent for DMA are never given back; reports success (0).
    pub fn dma_dealloc(pa: usize, pages: usize) -> (r: i32)
        ensures
            r == 0,
    {
        0
    }

    pub fn phys_to_virt(addr: usize) -> (r: usize)
        ensures
            r == addr,
    {
        addr
    }

    pub fn virt_to_phys(vaddr: usize) -> (r: usize)
        ensures
            r == vaddr,
    {
        vaddr
    }
}

} // verus!
