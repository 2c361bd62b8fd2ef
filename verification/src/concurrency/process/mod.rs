//! Processes: their identity, their family and their threads.
use vstd::prelude::*;

pub mod thread;

use thread::{TaskContext, Thread};
use crate::memory::{Address, Flag};
use crate::runtime::address_space::{AddressSpace, Segment};

verus! {

/// Hands out the numbers from `start` to `end`, both included: the thread numbers of a
/// process.
#[derive(Clone, Copy, Debug, PartialEq, Eq, Structural)]
pub struct Allocator {
    pub start: usize,
    pub end: usize,
}

impl Allocator {
    /// The allocator of the numbers from `start` to `end`; there is none when the range is
    /// empty (`start > end`).
    pub fn new(start: usize, end: usize) -> (r: Option<Allocator>)
        ensures
            r == (if start <= end { Some(Allocator { start, end }) } else { None }),
    {
        if start <= end {
            Some(Allocator { start, end })
        } else {
            None
        }
    }
}

/// A process.
pub struct Process {
    pub id: usize,
    pub address_space: AddressSpace,
    pub thread: Vec<Thread>,
    pub parent: Option<usize>,
    pub children: Vec<usize>,
    pub allocator: Allocator,
}

impl Process {
    /// A user process with identifier `pid` (handed out by the identifier allocator) that
    /// runs the program loaded as `address_space`: one thread, number 0, that enters user
    /// mode through `return_to_user`, and thread numbers 1 to 15 left to hand out.
    pub fn new(pid: usize, address_space: AddressSpace, return_to_user: usize) -> (r: Process)
        ensures
            r.id == pid,
            r.address_space == address_space,
            r.allocator == (Allocator { start: 1, end: 15 }),
            r.parent is None,
            r.children@ == Seq::<usize>::empty(),
            r.thread@ == seq![Thread { pid, tid: 0, context: TaskContext { pc: return_to_user, sp: 0 } }],
    {
        let allocator = Allocator::new(1, 15).unwrap();
        let mut thread = Vec::new();
        thread.push(Thread::new(pid, 0, return_to_user));
        Process { id: pid, address_space, thread, parent: None, children: Vec::new(), allocator }
    }

    /// The kernel process with identifier `id` and the kernel's address space
    /// `address_space`: its only thread is the idle thread, and it hands out no thread
    /// numbers but 0.
    pub fn new_kernel(id: usize, address_space: AddressSpace) -> (r: Process)
        ensures
            r.id == id,
            r.address_space == address_space,
            r.allocator == (Allocator { start: 0, end: 0 }),
            r.parent is None,
            r.children@ == Seq::<usize>::empty(),
            r.thread@ == seq![Thread { pid: 0, tid: 0, context: TaskContext { pc: 0, sp: 0 } }],
    {
        let allocator = Allocator::new(0, 0).unwrap();
        let mut thread = Vec::new();
        thread.push(Thread::empty());
        Process { id, address_space, thread, parent: None, children: Vec::new(), allocator }
    }

    /// A child of this process with identifier `id`: a copy of its address space, of each
    /// thread and of its thread-number allocator, and no children of its own. This process
    /// is left as it is. Copying a thread is not supported, so only a process without
    /// threads can be forked.
    pub fn fork(&self, id: usize) -> (r: Process)
        requires
            self.thread.len() == 0,
        ensures
            r.id == id,
            r.address_space.segments@ == self.address_space.segments@,
            r.address_space.entry == self.address_space.entry,
            r.allocator == self.allocator,
            r.parent == Some(self.id),
            r.children@ == Seq::<usize>::empty(),
            r.thread@ == self.thread@,
    {
        let thread: Vec<Thread> = Vec::new();
        assert(thread@ =~= self.thread@);
        Process {
            id,
            address_space: self.address_space.duplicate(),
            thread,
            parent: Some(self.id),
            children: Vec::new(),
            allocator: self.allocator,
        }
    }

    pub fn id(&self) -> (r: usize)
        ensures
            r == self.id,
    {
        self.id
    }

    /// The saved context of thread `tid`.
    pub fn get_context_ref(&self, tid: usize) -> (r: &TaskContext)
        requires
            tid < self.thread.len(),
        ensures
            *r == self.thread@[tid as int].context,
    {
        &self.thread[tid].context
    }

    /// The saved context of thread `tid`, to be changed in place.
    pub fn get_context_mut(&mut self, tid: usize) -> (r: &mut TaskContext)
        requires
            tid < old(self).thread.len(),
        ensures
            *r == old(self).thread@[tid as int].context,
            final(self).id == old(self).id,
            final(self).address_space == old(self).address_space,
            final(self).parent == old(self).parent,
            final(self).children@ == old(self).children@,
            final(self).allocator == old(self).allocator,
            final(self).thread@ == old(self).thread@.update(
                tid as int,
                Thread { context: *final(r), ..old(self).thread@[tid as int] },
            ),
    {
        &mut self.thread[tid].context
    }
}

/// A mapping that building a process's page table performs.
#[derive(Clone, Copy, Debug, PartialEq, Eq)]
pub enum Mapping {
    /// Map the pages of `range` (first and last included) to newly allocated frames.
    Area { range: (usize, usize), flag: Flag },
    /// Map page `page` to a newly allocated frame.
    Page { page: usize, flag: Flag },
    /// Map the pages of `range` to the consecutive frames that start at `frame`.
    FixedArea { range: (usize, usize), frame: usize, flag: Flag },
    /// Map page `page` to frame `frame`.
    Fixed { page: usize, frame: usize, flag: Flag },
}

/// The mappings of a user process with segments `segments`: each segment on new frames,
/// then the trap-handling code `itext` on its frame `itext_frame`.
pub open spec fn spec_user_mappings(segments: Seq<Segment>, itext: Segment, itext_frame: usize) -> Seq<Mapping> {
    Seq::new(segments.len(), |i: int| Mapping::Area { range: segments[i].range, flag: segments[i].flag })
        .push(Mapping::Fixed { page: itext.range.0, frame: itext_frame, flag: itext.flag })
}

/// The mappings of the kernel with segments `segments`: each segment on the frames of the
/// same numbers, then the trap-handling code `itext` on its frame `itext_frame`.
pub open spec fn spec_kernel_mappings(segments: Seq<Segment>, itext: Segment, itext_frame: usize) -> Seq<Mapping> {
    Seq::new(segments.len(), |i: int| Mapping::FixedArea {
        range: segments[i].range,
        frame: segments[i].range.0,
        flag: segments[i].flag,
    }).push(Mapping::Fixed { page: itext.range.0, frame: itext_frame, flag: itext.flag })
}

/// A user process maps every page of every segment, whatever its flags: mapping `i` is
/// segment `i`'s whole range on new frames with its flags, and the last mapping puts the
/// trap-handling code on its frame.
pub proof fn lemma_user_mappings_cover_segments(segments: Seq<Segment>, itext: Segment, itext_frame: usize)
    ensures
        spec_user_mappings(segments, itext, itext_frame).len() == segments.len() + 1,
        forall|i: int| 0 <= i < segments.len() ==> #[trigger] spec_user_mappings(segments, itext, itext_frame)[i]
            == (Mapping::Area { range: segments[i].range, flag: segments[i].flag }),
        spec_user_mappings(segments, itext, itext_frame)[segments.len() as int]
            == (Mapping::Fixed { page: itext.range.0, frame: itext_frame, flag: itext.flag }),
{
}

/// The kernel maps every segment onto itself, whatever its flags: mapping `i` puts
/// segment `i`'s pages on the frames of the same numbers with its flags, and the last
/// mapping puts the trap-handling code on its frame.
pub proof fn lemma_kernel_mappings_are_identity(segments: Seq<Segment>, itext: Segment, itext_frame: usize)
    ensures
        spec_kernel_mappings(segments, itext, itext_frame).len() == segments.len() + 1,
        forall|i: int| 0 <= i < segments.len() ==> #[trigger] spec_kernel_mappings(segments, itext, itext_frame)[i]
            == (Mapping::FixedArea { range: segments[i].range, frame: segments[i].range.0, flag: segments[i].flag }),
        spec_kernel_mappings(segments, itext, itext_frame)[segments.len() as int]
            == (Mapping::Fixed { page: itext.range.0, frame: itext_frame, flag: itext.flag }),
{
}

/// Building the address spaces of processes.
pub struct Lib;

impl Lib {
    /// The page-table mappings of a new user process with address space `address_space`,
    /// where the trap-handling code lies in segment `itext` and starts at the physical
    /// address `itext_address`.
    pub fn new(address_space: &AddressSpace, itext: Segment, itext_address: usize) -> (r: Vec<Mapping>)
        ensures
            r@ == spec_user_mappings(address_space.segments@, itext, itext_address / 4096),
            r@.len() == address_space.segments@.len() + 1,
            forall|i: int| 0 <= i < address_space.segments@.len() ==> #[trigger] r@[i] == (Mapping::Area {
                range: address_space.segments@[i].range,
                flag: address_space.segments@[i].flag,
            }),
            r@[address_space.segments@.len() as int] == (Mapping::Fixed {
                page: itext.range.0,
                frame: itext_address / 4096,
                flag: itext.flag,
            }),
    {
        let segments = &address_space.segments;
        let mut r: Vec<Mapping> = Vec::new();
        let mut i: usize = 0;
        while i < segments.len()
            invariant
                0 <= i <= segments.len(),
                r@ == Seq::new(i as nat, |k: int| Mapping::Area { range: segments@[k].range, flag: segments@[k].flag }),
            decreases segments.len() - i,
        {
            let segment = segments[i];
            r.push(Mapping::Area { range: segment.range, flag: segment.flag });
            assert(r@ =~= Seq::new((i + 1) as nat, |k: int| Mapping::Area { range: segments@[k].range, flag: segments@[k].flag }));
            i = i + 1;
        }
        let frame_number = Address::number(itext_address);
        r.push(Mapping::Fixed { page: itext.range.0, frame: frame_number, flag: itext.flag });
        assert(r@ =~= spec_user_mappings(address_space.segments@, itext, itext_address / 4096));
        proof {
            lemma_user_mappings_cover_segments(address_space.segments@, itext, itext_address / 4096);
        }
        r
    }

    /// The page-table mappings of the kernel with address space `address_space`: every
    /// segment is mapped onto itself; the trap-handling code as for user processes.
    pub fn new_kernel(address_space: &AddressSpace, itext: Segment, itext_address: usize) -> (r: Vec<Mapping>)
        ensures
            r@ == spec_kernel_mappings(address_space.segments@, itext, itext_address / 4096),
            r@.len() == address_space.segments@.len() + 1,
            forall|i: int| 0 <= i < address_space.segments@.len() ==> #[trigger] r@[i] == (Mapping::FixedArea {
                range: address_space.segments@[i].range,
                frame: address_space.segments@[i].range.0,
                flag: address_space.segments@[i].flag,
            }),
            r@[address_space.segments@.len() as int] == (Mapping::Fixed {
                page: itext.range.0,
                frame: itext_address / 4096,
                flag: itext.flag,
            }),
    {
        let segments = &address_space.segments;
        let mut r: Vec<Mapping> = Vec::new();
        let mut i: usize = 0;
        while i < segments.len()
            invariant
                0 <= i <= segments.len(),
                r@ == Seq::new(i as nat, |k: int| Mapping::FixedArea {
                    range: segments@[k].range,
                    frame: segments@[k].range.0,
                    flag: segments@[k].flag,
                }),
            decreases segments.len() - i,
        {
            let segment = segments[i];
            r.push(Mapping::FixedArea { range: segment.range, frame: segment.range.0, flag: segment.flag });
            assert(r@ =~= Seq::new((i + 1) as nat, |k: int| Mapping::FixedArea {
                range: segments@[k].range,
                frame: segments@[k].range.0,
                flag: segments@[k].flag,
            }));
            i = i + 1;
        }
        let frame_number = Address::number(itext_address);
        r.push(Mapping::Fixed { page: itext.range.0, frame: frame_number, flag: itext.flag });
        assert(r@ =~= spec_kernel_mappings(address_space.segments@, itext, itext_address / 4096));
        proof {
            lemma_kernel_mappings_are_identity(address_space.segments@, itext, itext_address / 4096);
        }
        r
    }
}

} // verus!
