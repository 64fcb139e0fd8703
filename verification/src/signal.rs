//! What the kernel learns when it examines a task's pending signals.

use vstd::prelude::*;

pub use crate::signal_defs::{SignalAction, SignalNo, MAX_SIG};

verus! {

/// Outcome of examining a task's pending signals.
#[derive(Clone, Copy, Debug, PartialEq, Eq, Structural)]
pub enum SignalResult {
    /// No signal work is required and execution may proceed as normal.
    NoSignal,
    /// The task is already handling a signal and should not re-enter.
    IsHandlingSignal,
    /// Pending signals were ignored due to disposition or mask.
    Ignored,
    /// At least one signal has been delivered and handled successfully.
    Handled,
    /// The process is to terminate with the given code.
    ProcessKilled(i32),
    /// The process is to be suspended.
    ProcessSuspended,
}

} // verus!
