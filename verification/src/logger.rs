//! The kernel log's level, chosen by name at build time (`LOG`).
use vstd::prelude::*;

verus! {

/// The most detailed level of messages that are logged.
#[derive(Clone, Copy, Debug, PartialEq, Eq, Structural)]
pub enum LogLevel {
    Off,
    Error,
    Warn,
    Info,
    Debug,
    Trace,
}

/// The byte strings `error`, `warn`, `info`, `debug` and `trace`.
pub open spec fn error_name() -> Seq<u8> {
    seq![101u8, 114u8, 114u8, 111u8, 114u8]
}

pub open spec fn warn_name() -> Seq<u8> {
    seq![119u8, 97u8, 114u8, 110u8]
}

pub open spec fn info_name() -> Seq<u8> {
    seq![105u8, 110u8, 102u8, 111u8]
}

pub open spec fn debug_name() -> Seq<u8> {
    seq![100u8, 101u8, 98u8, 117u8, 103u8]
}

pub open spec fn trace_name() -> Seq<u8> {
    seq![116u8, 114u8, 97u8, 99u8, 101u8]
}

/// The level named by `level`: one of the five lower-case names exactly; any other name,
/// or none, turns logging off.
pub open spec fn spec_max_level(level: Option<Seq<u8>>) -> LogLevel {
    match level {
        Some(s) => if s == error_name() {
            LogLevel::Error
        } else if s == warn_name() {
            LogLevel::Warn
        } else if s == info_name() {
            LogLevel::Info
        } else if s == debug_name() {
            LogLevel::Debug
        } else if s == trace_name() {
            LogLevel::Trace
        } else {
            LogLevel::Off
        },
        None => LogLevel::Off,
    }
}

/// Whether `a` and `b` hold the same bytes.
fn bytes_eq(a: &[u8], b: &[u8]) -> (r: bool)
    ensures
        r == (a@ == b@),
{
    if a.len() != b.len() {
        return false;
    }
    let mut i: usize = 0;
    while i < a.len()
        invariant
            0 <= i <= a.len(),
            a@.len() == b@.len(),
            forall|k: int| 0 <= k < i ==> a@[k] == b@[k],
        decreases a.len() - i,
    {
        if a[i] != b[i] {
            return false;
        }
        i = i + 1;
    }
    assert(a@ =~= b@);
    true
}

/// The maximum level of the kernel log, from the name `level` given at build time.
pub fn max_level(level: Option<&[u8]>) -> (r: LogLevel)
    ensures
        r == spec_max_level(match level {
            Some(s) => Some(s@),
            None => None,
        }),
{
    match level {
        Some(s) => {
            let error: [u8; 5] = [101, 114, 114, 111, 114];
            let warn: [u8; 4] = [119, 97, 114, 110];
            let info: [u8; 4] = [105, 110, 102, 111];
            let debug: [u8; 5] = [100, 101, 98, 117, 103];
            let trace: [u8; 5] = [116, 114, 97, 99, 101];
            assert(error@ =~= error_name());
            assert(warn@ =~= warn_name());
            assert(info@ =~= info_name());
            assert(debug@ =~= debug_name());
            assert(trace@ =~= trace_name());
            if bytes_eq(s, error.as_slice()) {
                LogLevel::Error
            } else if bytes_eq(s, warn.as_slice()) {
                LogLevel::Warn
            } else if bytes_eq(s, info.as_slice()) {
                LogLevel::Info
            } else if bytes_eq(s, debug.as_slice()) {
                LogLevel::Debug
            } else if bytes_eq(s, trace.as_slice()) {
                LogLevel::Trace
            } else {
                LogLevel::Off
            }
        },
        None => LogLevel::Off,
    }
}

} // verus!
