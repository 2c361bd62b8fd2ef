//! Threads, processes and their scheduling.
pub mod process;
pub mod scheduler;
pub mod thread;
