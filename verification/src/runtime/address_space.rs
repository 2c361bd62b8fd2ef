//! Address spaces: the segments of virtual memory that a process maps.
use vstd::prelude::*;
use crate::memory::Flag;
use crate::runtime::Segments;

verus! {

/// A run of virtual pages, first and last included, mapped with the same flags.
#[derive(Clone, Copy, Debug, PartialEq, Eq)]
pub struct Segment {
    pub range: (usize, usize),
    pub flag: Flag,
}

/// The segments of a program and the address at which it starts.
pub struct AddressSpace {
    pub segments: Vec<Segment>,
    pub entry: usize,
}

/// Flag bits of readable and executable pages (R | X).
pub open spec fn code_flags() -> u8 {
    10
}

/// Flag bits of read-only pages (R).
pub open spec fn read_only_flags() -> u8 {
    2
}

/// Flag bits of readable and writable pages (R | W).
pub open spec fn data_flags() -> u8 {
    6
}

/// The segments of the kernel's address space, as pairs of page range and flag bits: its
/// code (R | X), read-only data (R), data, stack and zero-initialised data, and the frames
/// after the image (R | W), then each device region of `mmio` (R | W), all mapped onto
/// themselves.
pub open spec fn spec_kernel_segments(s: Segments, mmio: Seq<(usize, usize)>) -> Seq<((usize, usize), u8)> {
    seq![
        (s.text, code_flags()),
        (s.read_only_data, read_only_flags()),
        (s.data, data_flags()),
        (s.static_data, data_flags()),
        (s.frame_data, data_flags()),
    ] + Seq::new(mmio.len(), |i: int| (mmio[i], data_flags()))
}

/// The pairs of page range and flag bits of `segments`.
pub open spec fn segment_values(segments: Seq<Segment>) -> Seq<((usize, usize), u8)> {
    Seq::new(segments.len(), |i: int| (segments[i].range, segments[i].flag@))
}

impl AddressSpace {
    /// The kernel's address space: the segments of its image and the device regions
    /// `mmio` (see `spec_kernel_segments`); it starts at `stext`, the start of its code.
    pub fn new_kernel(stext: usize, mmio: &Vec<(usize, usize)>, segments: &Segments) -> (r: AddressSpace)
        ensures
            segment_values(r.segments@) == spec_kernel_segments(*segments, mmio@),
            r.entry == stext,
    {
        let code = Flag::readable().union(&Flag::executable());
        let read_only = Flag::readable();
        let data = Flag::readable().union(&Flag::writable());
        let mut v: Vec<Segment> = Vec::new();
        v.push(Segment { range: segments.text, flag: code });
        v.push(Segment { range: segments.read_only_data, flag: read_only });
        v.push(Segment { range: segments.data, flag: data });
        v.push(Segment { range: segments.static_data, flag: data });
        v.push(Segment { range: segments.frame_data, flag: data });
        proof {
            assert(2u8 | 8u8 == 10u8) by (bit_vector);
            assert(2u8 | 4u8 == 6u8) by (bit_vector);
        }
        let ghost first = v@;
        let mut i: usize = 0;
        while i < mmio.len()
            invariant
                0 <= i <= mmio.len(),
                data@ == data_flags(),
                first.len() == 5,
                v@.len() == 5 + i,
                forall|k: int| 0 <= k < 5 ==> #[trigger] v@[k] == first[k],
                forall|k: int| 0 <= k < i ==> #[trigger] v@[5 + k] == (Segment { range: mmio@[k], flag: data }),
            decreases mmio.len() - i,
        {
            v.push(Segment { range: mmio[i], flag: data });
            i = i + 1;
        }
        proof {
            let want = spec_kernel_segments(*segments, mmio@);
            assert forall|k: int| 0 <= k < v@.len() implies #[trigger] segment_values(v@)[k] == want[k] by {
                if k >= 5 {
                    assert(v@[5 + (k - 5)] == (Segment { range: mmio@[k - 5], flag: data }));
                } else {
                    assert(v@[k] == first[k]);
                }
            }
            assert(segment_values(v@) =~= want);
        }
        AddressSpace { segments: v, entry: stext }
    }

    /// A copy of this address space.
    pub fn duplicate(&self) -> (r: AddressSpace)
        ensures
            r.segments@ == self.segments@,
            r.entry == self.entry,
    {
        let mut v: Vec<Segment> = Vec::new();
        let mut i: usize = 0;
        while i < self.segments.len()
            invariant
                0 <= i <= self.segments.len(),
                v@ == self.segments@.subrange(0, i as int),
            decreases self.segments.len() - i,
        {
            v.push(self.segments[i]);
            assert(v@ =~= self.segments@.subrange(0, i as int + 1));
            i = i + 1;
        }
        assert(v@ =~= self.segments@);
        AddressSpace { segments: v, entry: self.entry }
    }
}

} // verus!
