//! Verified core of a small RISC-V (SV39) kernel: page-table entry encoding,
//! address-translation register values, trap-cause decoding, register files,
//! and the process scheduler's state machine.
use vstd::prelude::*;

pub mod cpu;
pub mod memory;
pub mod concurrency;
pub mod intervene;
pub mod logger;
pub mod peripheral;
pub mod runtime;
pub mod system_call;
