//! System calls served by the kernel.
use vstd::prelude::*;

verus! {

/// The system calls.
pub struct Lib;

impl Lib {
    /// `write(fd, buf, len)`: writes nothing yet and reports 0 bytes written, whatever the
    /// descriptor, the buffer address and the length.
    pub fn write(fd: usize, buf: usize, len: usize) -> (r: isize)
        ensures
            r == 0,
    {
        0
    }
}

} // verus!
