//! Properties of signal handling that span several calls.

use vstd::prelude::*;

use super::{default_result, signal_returned, signals_handled, unchanged, HandlingState, SignalImpl};
use super::default_action::{default_action_of, DefaultAction};
use crate::context::LocalContext;
use crate::signal::SignalResult;
use crate::signal_defs::{lemma_signal_number_round_trip, signal_number, signal_of_number, SignalNo};

verus! {

/// Entering a user handler and then returning from it gives back the
/// context the handler interrupted and the mask that was in force, and
/// leaves no handling in progress.
pub proof fn lemma_handler_return_restores(
    s0: SignalImpl,
    s1: SignalImpl,
    c0: LocalContext,
    c1: LocalContext,
    r: SignalResult,
    s2: SignalImpl,
    c2: LocalContext,
    b: bool,
)
    requires
        s0.handling_view() is Idle,
        signals_handled(s0, s1, c0, c1, r),
        s1.handling_view() is User,
        signal_returned(s1, s2, c1, c2, b),
    ensures
        b,
        c2 == c0,
        s2.mask_view() == s0.mask_view(),
        s2.actions_view() == s0.actions_view(),
        s2.handling_view() is Idle,
{
}

/// A pending `SIGKILL` or `SIGSTOP` is always acted on when no handler or
/// stop is in progress, whatever the mask.
pub proof fn lemma_unmaskable_is_acted_on(
    s0: SignalImpl,
    s1: SignalImpl,
    c0: LocalContext,
    c1: LocalContext,
    r: SignalResult,
    signal: SignalNo,
)
    requires
        s0.handling_view() is Idle,
        signal == SignalNo::SIGKILL || signal == SignalNo::SIGSTOP,
        s0.pending_view().contains(signal),
        signals_handled(s0, s1, c0, c1, r),
    ensures
        r != SignalResult::NoSignal,
{
    lemma_signal_number_round_trip(signal, 0);
    if signal == SignalNo::SIGKILL {
        assert(signal_of_number(9) == SignalNo::SIGKILL);
        assert(s0.deliverable(9));
    } else {
        assert(signal_of_number(19) == SignalNo::SIGSTOP);
        assert(s0.deliverable(19));
    }
    s0.lemma_lowest_deliverable(1);
}

/// The signal that delivery picks is pending and not masked, and no
/// lower-numbered signal is both.
pub proof fn lemma_delivered_is_lowest_unmasked(s: SignalImpl)
    ensures
        s.next_deliverable() matches Some(sig) ==> {
            &&& s.pending_view().contains(sig)
            &&& !s.masked(sig)
            &&& sig != SignalNo::ERR
        },
        s.next_deliverable() is None ==> forall|n: int| !#[trigger] s.deliverable(n),
{
    s.lemma_lowest_deliverable(1);
    if let Some(sig) = s.next_deliverable() {
        lemma_signal_number_round_trip(sig, 0);
    }
    if s.next_deliverable() is None {
        assert forall|n: int| !#[trigger] s.deliverable(n) by {
            if s.deliverable(n) {
                assert(1 <= n);
            }
        }
    }
}

/// A stopped process stays stopped, with nothing changed, until `SIGCONT`
/// is pending.
pub proof fn lemma_stopped_until_continue(
    s0: SignalImpl,
    s1: SignalImpl,
    c0: LocalContext,
    c1: LocalContext,
    r: SignalResult,
)
    requires
        s0.handling_view() is Suspended,
        !s0.pending_view().contains(SignalNo::SIGCONT),
        signals_handled(s0, s1, c0, c1, r),
    ensures
        r == SignalResult::ProcessSuspended,
        unchanged(s0, s1),
        c1 == c0,
        s1.handling_view() is Suspended,
{
}

/// Pending signals that the mask all holds back are reported as ignored
/// when no handler or stop is in progress: nothing is delivered, and the
/// context, the pending set, the mask and the actions stay as they were.
pub proof fn lemma_masked_pending_is_ignored(
    s0: SignalImpl,
    s1: SignalImpl,
    c0: LocalContext,
    c1: LocalContext,
    r: SignalResult,
)
    requires
        s0.handling_view() is Idle,
        s0.pending_view() != Set::<SignalNo>::empty(),
        forall|sig: SignalNo| #[trigger] s0.pending_view().contains(sig) ==> s0.masked(sig),
        signals_handled(s0, s1, c0, c1, r),
    ensures
        r == SignalResult::Ignored,
        unchanged(s0, s1),
        c1 == c0,
{
    s0.lemma_lowest_deliverable(1);
    if let Some(sig) = s0.next_deliverable() {
        lemma_signal_number_round_trip(sig, 0);
        assert(s0.pending_view().contains(signal_of_number(signal_number(sig) as int)));
    }
}

/// Every signal terminates the process by default except those whose
/// default is to be ignored (`SIGCHLD`, `SIGURG`, `SIGWINCH`, and `ERR`),
/// to stop (`SIGSTOP`, `SIGTSTP`, `SIGTTIN`, `SIGTTOU`), or to continue
/// (`SIGCONT`).
pub proof fn lemma_default_is_terminate(signal: SignalNo)
    requires
        signal != SignalNo::SIGCHLD,
        signal != SignalNo::SIGURG,
        signal != SignalNo::SIGWINCH,
        signal != SignalNo::ERR,
        signal != SignalNo::SIGSTOP,
        signal != SignalNo::SIGTSTP,
        signal != SignalNo::SIGTTIN,
        signal != SignalNo::SIGTTOU,
        signal != SignalNo::SIGCONT,
    ensures
        default_action_of(signal) == DefaultAction::Terminate,
        default_result(signal) == SignalResult::ProcessKilled((-(signal_number(signal) as int)) as i32),
{
}

/// A pending signal that the mask lets through, with no handler installed,
/// no lower-numbered signal deliverable and no handler or stop in
/// progress, kills the process with its negated number when its default
/// is to terminate; the context is left alone.
pub proof fn lemma_unhandled_signal_kills(
    s0: SignalImpl,
    s1: SignalImpl,
    c0: LocalContext,
    c1: LocalContext,
    r: SignalResult,
    signal: SignalNo,
)
    requires
        s0.handling_view() is Idle,
        s0.pending_view().contains(signal),
        !s0.masked(signal),
        signal != SignalNo::ERR,
        forall|m: int| 1 <= m < signal_number(signal) ==> !#[trigger] s0.deliverable(m),
        s0.action_of(signal).handler == 0,
        signal != SignalNo::SIGCHLD,
        signal != SignalNo::SIGURG,
        signal != SignalNo::SIGWINCH,
        signal != SignalNo::SIGSTOP,
        signal != SignalNo::SIGTSTP,
        signal != SignalNo::SIGTTIN,
        signal != SignalNo::SIGTTOU,
        signal != SignalNo::SIGCONT,
        signals_handled(s0, s1, c0, c1, r),
    ensures
        r == SignalResult::ProcessKilled((-(signal_number(signal) as int)) as i32),
        c1 == c0,
        s1.pending_view() == s0.pending_view().remove(signal),
        s1.mask_view() == s0.mask_view(),
{
    let n = signal_number(signal) as int;
    lemma_signal_number_round_trip(signal, 0);
    assert(n != 0) by {
        lemma_signal_number_round_trip(SignalNo::ERR, 0);
    }
    assert(s0.deliverable(n));
    s0.lemma_lowest_skips(n);
    assert(s0.lowest_deliverable_from(n) == Some(signal));
    lemma_default_is_terminate(signal);
}

} // verus!
