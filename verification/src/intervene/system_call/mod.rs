//! What system-call handling asks of the kernel.
use vstd::prelude::*;

verus! {

/// The kernel side of system-call handling.
pub struct Handler;

impl Handler {
    /// The token of the current user address space; user buffers are not translated yet,
    /// so it is always 0.
    pub fn current_user_token() -> (r: usize)
        ensures
            r == 0,
    {
        0
    }
}

} // verus!
