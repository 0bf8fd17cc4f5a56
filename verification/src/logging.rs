use vstd::prelude::*;

verus! {

/// The most verbose level of the log messages that are written.
#[derive(Debug, Clone, Copy, PartialEq, Eq)]
pub enum LogLevel {
    Trace,
    Debug,
    Info,
}

/// The level the log is set up with: trace where asked, else debug where asked,
/// else info.
pub fn log_level(trace: bool, debug: bool) -> (res: LogLevel)
    ensures
        res == if trace {
            LogLevel::Trace
        } else if debug {
            LogLevel::Debug
        } else {
            LogLevel::Info
        },
{
    if trace {
        LogLevel::Trace
    } else if debug {
        LogLevel::Debug
    } else {
        LogLevel::Info
    }
}

} // verus!
