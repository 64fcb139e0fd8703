//! What happens to a signal that has no user-installed handler.

use vstd::prelude::*;

use crate::signal_defs::SignalNo;

verus! {

/// Default behaviour for signals without a user handler.
#[derive(Clone, Copy, Debug, PartialEq, Eq, Structural)]
pub enum DefaultAction {
    Ignore,
    Terminate,
    Stop,
    Continue,
}

/// The default action of each signal: child, urgent-data, window-change and
/// `ERR` are ignored; the four stop signals stop; `SIGCONT` continues; every
/// other signal terminates.
pub open spec fn default_action_of(signal: SignalNo) -> DefaultAction {
    match signal {
        SignalNo::SIGCHLD | SignalNo::SIGURG | SignalNo::SIGWINCH => DefaultAction::Ignore,
        SignalNo::SIGSTOP | SignalNo::SIGTSTP | SignalNo::SIGTTIN | SignalNo::SIGTTOU => {
            DefaultAction::Stop
        },
        SignalNo::SIGCONT => DefaultAction::Continue,
        SignalNo::ERR => DefaultAction::Ignore,
        _ => DefaultAction::Terminate,
    }
}

/// Whether a signal can be neither masked nor caught.
pub open spec fn unmaskable(signal: SignalNo) -> bool {
    signal == SignalNo::SIGKILL || signal == SignalNo::SIGSTOP
}

/// The default action of `signal`.
pub fn default_action(signal: SignalNo) -> (r: DefaultAction)
    ensures
        r == default_action_of(signal),
{
    match signal {
        SignalNo::SIGCHLD | SignalNo::SIGURG | SignalNo::SIGWINCH => DefaultAction::Ignore,
        SignalNo::SIGSTOP | SignalNo::SIGTSTP | SignalNo::SIGTTIN | SignalNo::SIGTTOU => {
            DefaultAction::Stop
        },
        SignalNo::SIGCONT => DefaultAction::Continue,
        SignalNo::ERR => DefaultAction::Ignore,
        _ => DefaultAction::Terminate,
    }
}

/// Whether `signal` is `SIGKILL` or `SIGSTOP`.
pub fn is_unmaskable(signal: SignalNo) -> (r: bool)
    ensures
        r == unmaskable(signal),
{
    match signal {
        SignalNo::SIGKILL | SignalNo::SIGSTOP => true,
        _ => false,
    }
}

} // verus!
