//! Signal handling for one process: the pending set, the mask, the
//! installed actions, and the handler or stop in progress.

use vstd::prelude::*;

pub mod default_action;
pub mod laws;
pub mod signal_set;

use crate::context::{LocalContext, ARGUMENT_REGISTER_BASE};
use crate::signal::SignalResult;
use crate::signal_defs::{
    lemma_signal_number_round_trip, signal_number, signal_of_number, SignalAction, SignalNo,
};
use default_action::{default_action, default_action_of, is_unmaskable, unmaskable, DefaultAction};
use signal_set::SignalSet;

verus! {

/// One slot per signal number.
pub const SIGNAL_CAPACITY: usize = 64;

/// A user handler in progress: the signal, and the context and mask to
/// restore when the handler returns.
#[derive(Clone, Copy)]
pub struct HandlingSignal {
    signal: SignalNo,
    saved_context: LocalContext,
    saved_mask: usize,
}

impl HandlingSignal {
    /// The signal being handled.
    pub closed spec fn signal_view(&self) -> SignalNo {
        self.signal
    }

    /// The context to restore.
    pub closed spec fn context_view(&self) -> LocalContext {
        self.saved_context
    }

    /// The mask to restore.
    pub closed spec fn mask_view(&self) -> usize {
        self.saved_mask
    }

    fn new(signal: SignalNo, ctx: LocalContext, mask: usize) -> (r: Self)
        ensures
            r.signal_view() == signal,
            r.context_view() == ctx,
            r.mask_view() == mask,
    {
        HandlingSignal { signal, saved_context: ctx, saved_mask: mask }
    }

    /// The signal being handled.
    pub fn signal(&self) -> (r: SignalNo)
        ensures
            r == self.signal_view(),
    {
        self.signal
    }

    /// The context saved when the handler was entered.
    pub fn saved_context(&self) -> (r: &LocalContext)
        ensures
            *r == self.context_view(),
    {
        &self.saved_context
    }

    /// The mask saved when the handler was entered.
    pub fn saved_mask(&self) -> (r: usize)
        ensures
            r == self.mask_view(),
    {
        self.saved_mask
    }
}

/// What the process is doing about signals right now.
#[derive(Clone, Copy)]
pub enum HandlingState {
    /// Nothing: pending signals may be delivered.
    Idle,
    /// A user handler runs.
    User(HandlingSignal),
    /// The process is stopped until `SIGCONT` arrives.
    Suspended,
}

impl HandlingState {
    /// Takes the handler in progress out, leaving `None`; leaves any other
    /// state as it is and returns `None`.
    fn take_user(&mut self) -> (r: Option<HandlingSignal>)
        ensures
            *old(self) is User ==> r == Some(old(self)->User_0) && *final(self) is Idle,
            !(*old(self) is User) ==> r is None && *final(self) == *old(self),
    {
        match *self {
            HandlingState::User(signal) => {
                *self = HandlingState::Idle;
                Some(signal)
            },
            _ => None,
        }
    }
}

/// The bit of `signal` in a mask (signal numbers are below 64 and the
/// kernel's words are 64 bits wide).
pub open spec fn mask_bit_of(signal: SignalNo) -> usize {
    if signal_number(signal) < usize::BITS {
        (1usize << signal_number(signal)) as usize
    } else {
        0
    }
}

/// The result of the default action of `signal`.
pub open spec fn default_result(signal: SignalNo) -> SignalResult {
    match default_action_of(signal) {
        DefaultAction::Ignore => SignalResult::Ignored,
        DefaultAction::Terminate => SignalResult::ProcessKilled((-(signal_number(signal) as int)) as i32),
        DefaultAction::Stop => SignalResult::ProcessSuspended,
        DefaultAction::Continue => SignalResult::Handled,
    }
}

/// Signal state of one process.
pub struct SignalImpl {
    pending: SignalSet,
    mask: usize,
    actions: [SignalAction; SIGNAL_CAPACITY],
    handling: HandlingState,
}

impl SignalImpl {
    /// The pending signals.
    pub closed spec fn pending_view(&self) -> Set<SignalNo> {
        self.pending@
    }

    /// The mask.
    pub closed spec fn mask_view(&self) -> usize {
        self.mask
    }

    /// The installed actions, indexed by signal number.
    pub closed spec fn actions_view(&self) -> Seq<SignalAction> {
        self.actions@
    }

    /// The handler or stop in progress.
    pub closed spec fn handling_view(&self) -> HandlingState {
        self.handling
    }

    /// There is one action slot per signal number.
    pub proof fn lemma_actions_len(&self)
        ensures
            self.actions_view().len() == SIGNAL_CAPACITY,
    {
    }

    /// The action installed for `signal`.
    pub open spec fn action_of(&self, signal: SignalNo) -> SignalAction {
        self.actions_view()[signal_number(signal) as int]
    }

    /// Whether `signal` is blocked by the mask (`SIGKILL` and `SIGSTOP`
    /// never are).
    pub open spec fn masked(&self, signal: SignalNo) -> bool {
        !unmaskable(signal) && self.mask_view() & mask_bit_of(signal) != 0
    }

    /// Whether the signal numbered `n` is pending and not blocked.
    pub open spec fn deliverable(&self, n: int) -> bool {
        1 <= n < 64 && self.pending_view().contains(signal_of_number(n)) && !self.masked(
            signal_of_number(n),
        )
    }

    /// The lowest-numbered deliverable signal at or above `n`.
    pub open spec fn lowest_deliverable_from(&self, n: int) -> Option<SignalNo>
        decreases 64 - n,
    {
        if n >= 64 {
            None
        } else if self.deliverable(n) {
            Some(signal_of_number(n))
        } else {
            self.lowest_deliverable_from(n + 1)
        }
    }

    /// The signal that delivery picks next: the lowest-numbered one that
    /// is pending and not masked.
    pub open spec fn next_deliverable(&self) -> Option<SignalNo> {
        self.lowest_deliverable_from(1)
    }

    /// Fresh state: nothing pending, empty mask, no actions, nothing in
    /// progress.
    pub fn new() -> (r: Self)
        ensures
            r.pending_view() == Set::<SignalNo>::empty(),
            r.mask_view() == 0,
            r.actions_view() == Seq::new(SIGNAL_CAPACITY as nat, |i: int| SignalAction { handler: 0, mask: 0 }),
            r.handling_view() is Idle,
    {
        let none = SignalAction { handler: 0, mask: 0 };
        let r = SignalImpl {
            pending: SignalSet::new(),
            mask: 0,
            actions: [none; 64],
            handling: HandlingState::Idle,
        };
        proof {
            assert(r.pending_view() =~= Set::<SignalNo>::empty());
            assert(r.actions_view() =~= Seq::new(SIGNAL_CAPACITY as nat, |i: int| SignalAction { handler: 0, mask: 0 }));
        }
        r
    }

    /// The action slot of a signal; `ERR` has none.
    fn signal_index(signal: SignalNo) -> (r: Option<usize>)
        ensures
            signal == SignalNo::ERR ==> r is None,
            signal != SignalNo::ERR ==> r == Some(signal_number(signal) as usize),
    {
        match signal {
            SignalNo::ERR => None,
            _ => Some(signal.number() as usize),
        }
    }

    /// The bit of `signal` in a mask.
    fn mask_bit(signal: SignalNo) -> (r: usize)
        ensures
            r == mask_bit_of(signal),
    {
        let n = signal.number() as u32;
        if n < usize::BITS {
            1usize << n
        } else {
            0
        }
    }

    /// Whether the mask blocks `signal`.
    fn is_masked(&self, signal: SignalNo) -> (r: bool)
        ensures
            r == self.masked(signal),
    {
        !is_unmaskable(signal) && (self.mask & Self::mask_bit(signal)) != 0
    }

    proof fn lemma_lowest_skips(&self, n: int)
        requires
            1 <= n <= 64,
            forall|m: int| 1 <= m < n ==> !self.deliverable(m),
        ensures
            self.lowest_deliverable_from(1) == self.lowest_deliverable_from(n),
        decreases n,
    {
        if n > 1 {
            self.lemma_lowest_skips(n - 1);
        }
    }

    /// What the search finds is deliverable, and found at its own number.
    pub proof fn lemma_lowest_deliverable(&self, n: int)
        ensures
            self.lowest_deliverable_from(n) matches Some(s) ==> {
                &&& n <= signal_number(s) < 64
                &&& 1 <= signal_number(s)
                &&& self.deliverable(signal_number(s) as int)
                &&& s != SignalNo::ERR
            },
            (exists|m: int| n <= m && #[trigger] self.deliverable(m)) ==> self.lowest_deliverable_from(n) is Some,
        decreases 64 - n,
    {
        if n < 64 {
            self.lemma_lowest_deliverable(n + 1);
            if self.deliverable(n) {
                lemma_signal_number_round_trip(signal_of_number(n), n);
            } else {
                if exists|m: int| n <= m && #[trigger] self.deliverable(m) {
                    let m = choose|m: int| n <= m && #[trigger] self.deliverable(m);
                    assert(n + 1 <= m);
                }
            }
        } else {
            if exists|m: int| n <= m && #[trigger] self.deliverable(m) {
                let m = choose|m: int| n <= m && #[trigger] self.deliverable(m);
                assert(false);
            }
        }
    }

    /// Takes the next deliverable signal out of the pending set.
    fn next_pending(&mut self) -> (r: Option<SignalNo>)
        ensures
            r == old(self).next_deliverable(),
            r is Some ==> final(self).pending_view() == old(self).pending_view().remove(r->0),
            r is None ==> final(self).pending_view() == old(self).pending_view(),
            final(self).mask_view() == old(self).mask_view(),
            final(self).actions_view() == old(self).actions_view(),
            final(self).handling_view() == old(self).handling_view(),
    {
        let mut raw: usize = 1;
        while raw < SIGNAL_CAPACITY
            invariant
                1 <= raw <= SIGNAL_CAPACITY,
                *self == *old(self),
                forall|m: int| 1 <= m < raw ==> !self.deliverable(m),
            decreases SIGNAL_CAPACITY - raw,
        {
            let signal = SignalNo::from(raw);
            proof {
                lemma_signal_number_round_trip(signal, raw as int);
            }
            if signal == SignalNo::ERR {
                raw = raw + 1;
                continue;
            }
            if self.pending.contains(signal) && !self.is_masked(signal) {
                proof {
                    self.lemma_lowest_skips(raw as int);
                }
                self.pending.remove(signal);
                proof {
                    assert(self.pending_view() =~= old(self).pending_view().remove(signal));
                }
                return Some(signal);
            }
            raw = raw + 1;
        }
        proof {
            self.lemma_lowest_skips(64);
        }
        None
    }

    /// Applies the default action of `signal`.
    fn deliver_default_action(&mut self, signal: SignalNo) -> (r: SignalResult)
        ensures
            r == default_result(signal),
            default_action_of(signal) == DefaultAction::Stop ==> final(self).handling_view() is Suspended,
            default_action_of(signal) != DefaultAction::Stop ==> final(self).handling_view() == old(self).handling_view(),
            final(self).pending_view() == old(self).pending_view(),
            final(self).mask_view() == old(self).mask_view(),
            final(self).actions_view() == old(self).actions_view(),
    {
        match default_action(signal) {
            DefaultAction::Ignore => SignalResult::Ignored,
            DefaultAction::Terminate => {
                proof {
                    lemma_signal_number_round_trip(signal, 0);
                }
                SignalResult::ProcessKilled(-(signal.number() as i32))
            },
            DefaultAction::Stop => {
                self.handling = HandlingState::Suspended;
                SignalResult::ProcessSuspended
            },
            DefaultAction::Continue => SignalResult::Handled,
        }
    }

    /// Enters the user handler `action` for `signal`: saves the context and
    /// mask, widens the mask, and points the context at the handler with the
    /// signal number in `a0`.
    fn deliver_user_handler(
        &mut self,
        signal: SignalNo,
        action: &SignalAction,
        ctx: &mut LocalContext,
    ) -> (r: SignalResult)
        ensures
            r == SignalResult::Handled,
            final(self).mask_view() == old(self).mask_view() | (action.mask | mask_bit_of(signal)),
            final(self).handling_view() is User,
            final(self).handling_view()->User_0.signal_view() == signal,
            final(self).handling_view()->User_0.context_view() == *old(ctx),
            final(self).handling_view()->User_0.mask_view() == old(self).mask_view(),
            final(self).pending_view() == old(self).pending_view(),
            final(self).actions_view() == old(self).actions_view(),
            final(ctx).pc_view() == action.handler,
            final(ctx).regs() == old(ctx).regs().update(
                ARGUMENT_REGISTER_BASE as int,
                signal_number(signal) as usize,
            ),
            final(ctx).same_flags(old(ctx)),
    {
        let saved_context = ctx.clone();
        let saved_mask = self.mask;
        let additional_mask = action.mask | Self::mask_bit(signal);
        self.mask = self.mask | additional_mask;
        self.handling = HandlingState::User(HandlingSignal::new(signal, saved_context, saved_mask));
        *ctx.pc_mut() = action.handler;
        proof {
            lemma_signal_number_round_trip(signal, 0);
        }
        *ctx.a_mut(0) = signal.number() as usize;
        SignalResult::Handled
    }

    /// Delivers the next deliverable signal, if any: its user handler when
    /// one is installed, else its default action.  With none deliverable,
    /// pending signals held back by the mask are reported as ignored.
    fn process_pending_signal(&mut self, ctx: &mut LocalContext) -> (r: SignalResult)
        ensures
            pending_processed(*old(self), *final(self), *old(ctx), *final(ctx), r),
    {
        let next = self.next_pending();
        let signal = match next {
            Some(signal) => signal,
            None => {
                if self.pending.is_empty() {
                    return SignalResult::NoSignal;
                }
                return SignalResult::Ignored;
            },
        };
        proof {
            lemma_signal_number_round_trip(signal, 0);
            old(self).lemma_lowest_deliverable(1);
        }
        if let Some(index) = Self::signal_index(signal) {
            let action = self.actions[index];
            if action.handler != 0 {
                return self.deliver_user_handler(signal, &action, ctx);
            }
        }
        self.deliver_default_action(signal)
    }

    /// A stopped process resumes when `SIGCONT` is pending (consuming it);
    /// otherwise it stays stopped.
    fn handle_stopped_state(&mut self) -> (r: SignalResult)
        ensures
            old(self).pending_view().contains(SignalNo::SIGCONT) ==> {
                &&& r == SignalResult::Handled
                &&& final(self).pending_view() == old(self).pending_view().remove(SignalNo::SIGCONT)
                &&& final(self).handling_view() is Idle
            },
            !old(self).pending_view().contains(SignalNo::SIGCONT) ==> {
                &&& r == SignalResult::ProcessSuspended
                &&& final(self).pending_view() == old(self).pending_view()
                &&& final(self).handling_view() == old(self).handling_view()
            },
            final(self).mask_view() == old(self).mask_view(),
            final(self).actions_view() == old(self).actions_view(),
    {
        if self.pending.remove(SignalNo::SIGCONT) {
            self.handling = HandlingState::Idle;
            SignalResult::Handled
        } else {
            proof {
                assert(self.pending_view() =~= old(self).pending_view());
            }
            SignalResult::ProcessSuspended
        }
    }

    /// The state a forked child starts with: the parent's mask and actions,
    /// nothing pending and nothing in progress.
    pub fn from_fork(&mut self) -> (r: SignalImpl)
        ensures
            *final(self) == *old(self),
            r.pending_view() == Set::<SignalNo>::empty(),
            r.mask_view() == old(self).mask_view(),
            r.actions_view() == old(self).actions_view(),
            r.handling_view() is Idle,
    {
        let r = SignalImpl {
            pending: SignalSet::new(),
            mask: self.mask,
            actions: self.actions,
            handling: HandlingState::Idle,
        };
        proof {
            assert(r.pending_view() =~= Set::<SignalNo>::empty());
        }
        r
    }

    /// Forgets pending signals, installed actions and any handling in
    /// progress; the mask stays.
    pub fn clear(&mut self)
        ensures
            final(self).pending_view() == Set::<SignalNo>::empty(),
            final(self).actions_view() == Seq::new(SIGNAL_CAPACITY as nat, |i: int| SignalAction { handler: 0, mask: 0 }),
            final(self).handling_view() is Idle,
            final(self).mask_view() == old(self).mask_view(),
    {
        self.pending.clear();
        let none = SignalAction { handler: 0, mask: 0 };
        self.actions = [none; 64];
        self.handling = HandlingState::Idle;
        proof {
            assert(self.pending_view() =~= Set::<SignalNo>::empty());
            assert(self.actions_view() =~= Seq::new(SIGNAL_CAPACITY as nat, |i: int| SignalAction { handler: 0, mask: 0 }));
        }
    }

    /// Records `signal` as pending (`ERR` is not recorded).
    pub fn add_signal(&mut self, signal: SignalNo)
        ensures
            signal != SignalNo::ERR ==> final(self).pending_view() == old(self).pending_view().insert(signal),
            signal == SignalNo::ERR ==> final(self).pending_view() == old(self).pending_view(),
            final(self).mask_view() == old(self).mask_view(),
            final(self).actions_view() == old(self).actions_view(),
            final(self).handling_view() == old(self).handling_view(),
    {
        self.pending.add(signal);
        proof {
            if signal != SignalNo::ERR {
                assert(self.pending_view() =~= old(self).pending_view().insert(signal));
            } else {
                assert(self.pending_view() =~= old(self).pending_view());
            }
        }
    }

    /// Whether a user handler runs or the process is stopped.
    pub fn is_handling_signal(&self) -> (r: bool)
        ensures
            r == !(self.handling_view() is Idle),
    {
        match self.handling {
            HandlingState::Idle => false,
            _ => true,
        }
    }

    /// Installs `action` for `signum`. `ERR`, `SIGKILL` and `SIGSTOP`
    /// cannot have an action: for them nothing changes and the result is
    /// `false`.
    pub fn set_action(&mut self, signum: SignalNo, action: &SignalAction) -> (r: bool)
        ensures
            r == !(signum == SignalNo::ERR || unmaskable(signum)),
            r ==> final(self).actions_view() == old(self).actions_view().update(
                signal_number(signum) as int,
                *action,
            ),
            !r ==> final(self).actions_view() == old(self).actions_view(),
            final(self).pending_view() == old(self).pending_view(),
            final(self).mask_view() == old(self).mask_view(),
            final(self).handling_view() == old(self).handling_view(),
    {
        match signum {
            SignalNo::ERR | SignalNo::SIGKILL | SignalNo::SIGSTOP => {
                return false;
            },
            _ => {},
        }
        if let Some(index) = Self::signal_index(signum) {
            proof {
                lemma_signal_number_round_trip(signum, 0);
            }
            self.actions[index] = *action;
            true
        } else {
            false
        }
    }

    /// The action installed for `signum`; `None` only for `ERR`.
    pub fn get_action_ref(&self, signum: SignalNo) -> (r: Option<SignalAction>)
        ensures
            signum == SignalNo::ERR ==> r is None,
            signum != SignalNo::ERR ==> r == Some(self.action_of(signum)),
    {
        match Self::signal_index(signum) {
            Some(index) => {
                proof {
                    lemma_signal_number_round_trip(signum, 0);
                }
                Some(self.actions[index])
            },
            None => None,
        }
    }

    /// Replaces the mask, returning the previous one.
    pub fn update_mask(&mut self, mask: usize) -> (r: usize)
        ensures
            r == old(self).mask_view(),
            final(self).mask_view() == mask,
            final(self).pending_view() == old(self).pending_view(),
            final(self).actions_view() == old(self).actions_view(),
            final(self).handling_view() == old(self).handling_view(),
    {
        let old_mask = self.mask;
        self.mask = mask;
        old_mask
    }

    /// Examines the pending signals against `current_context`: nothing is
    /// delivered while a user handler runs; a stopped process waits for
    /// `SIGCONT`; otherwise the next deliverable signal is delivered, and
    /// pending signals that the mask holds back are reported as ignored.
    pub fn handle_signals(&mut self, current_context: &mut LocalContext) -> (r: SignalResult)
        ensures
            signals_handled(*old(self), *final(self), *old(current_context), *final(current_context), r),
    {
        match self.handling {
            HandlingState::User(_) => {
                return SignalResult::IsHandlingSignal;
            },
            HandlingState::Suspended => {
                return self.handle_stopped_state();
            },
            HandlingState::Idle => {},
        }
        self.process_pending_signal(current_context)
    }

    /// Returns from a user handler: restores the saved context and mask.
    /// Without a handler in progress nothing changes and the result is
    /// `false`.
    pub fn sig_return(&mut self, current_context: &mut LocalContext) -> (r: bool)
        ensures
            signal_returned(*old(self), *final(self), *old(current_context), *final(current_context), r),
    {
        if let Some(saved) = self.handling.take_user() {
            *current_context = saved.saved_context;
            self.mask = saved.saved_mask;
            true
        } else {
            false
        }
    }
}

impl Default for SignalImpl {
    /// Fresh state, as [`SignalImpl::new`].
    fn default() -> (r: Self)
        ensures
            r.pending_view() == Set::<SignalNo>::empty(),
            r.mask_view() == 0,
            r.handling_view() is Idle,
    {
        Self::new()
    }
}

/// Nothing of the signal state changed.
pub open spec fn unchanged(old: SignalImpl, new: SignalImpl) -> bool {
    &&& new.pending_view() == old.pending_view()
    &&& new.mask_view() == old.mask_view()
    &&& new.actions_view() == old.actions_view()
    &&& new.handling_view() == old.handling_view()
}

/// `signal`, already picked, was delivered: taken out of the pending set,
/// then sent to its user handler if one is installed, else given its
/// default action.
pub open spec fn delivered(
    old: SignalImpl,
    new: SignalImpl,
    ctx0: LocalContext,
    ctx1: LocalContext,
    signal: SignalNo,
    r: SignalResult,
) -> bool {
    let action = old.action_of(signal);
    &&& new.pending_view() == old.pending_view().remove(signal)
    &&& new.actions_view() == old.actions_view()
    &&& if action.handler != 0 {
        &&& r == SignalResult::Handled
        &&& new.mask_view() == old.mask_view() | (action.mask | mask_bit_of(signal))
        &&& new.handling_view() is User
        &&& new.handling_view()->User_0.signal_view() == signal
        &&& new.handling_view()->User_0.context_view() == ctx0
        &&& new.handling_view()->User_0.mask_view() == old.mask_view()
        &&& ctx1.pc_view() == action.handler
        &&& ctx1.regs() == ctx0.regs().update(
            ARGUMENT_REGISTER_BASE as int,
            signal_number(signal) as usize,
        )
        &&& ctx1.same_flags(&ctx0)
    } else {
        &&& r == default_result(signal)
        &&& new.mask_view() == old.mask_view()
        &&& if default_action_of(signal) == DefaultAction::Stop {
            new.handling_view() is Suspended
        } else {
            new.handling_view() == old.handling_view()
        }
        &&& ctx1 == ctx0
    }
}

/// The next deliverable signal, if there is one, was delivered.  When none
/// is deliverable nothing changes: the result is `NoSignal` when nothing is
/// pending, and `Ignored` when the pending signals are all held back by
/// the mask.
pub open spec fn pending_processed(
    old: SignalImpl,
    new: SignalImpl,
    ctx0: LocalContext,
    ctx1: LocalContext,
    r: SignalResult,
) -> bool {
    match old.next_deliverable() {
        None => {
            &&& r == (if old.pending_view() == Set::<SignalNo>::empty() {
                SignalResult::NoSignal
            } else {
                SignalResult::Ignored
            })
            &&& unchanged(old, new)
            &&& ctx1 == ctx0
        },
        Some(signal) => delivered(old, new, ctx0, ctx1, signal, r),
    }
}

/// What one examination of the pending signals does.
pub open spec fn signals_handled(
    old: SignalImpl,
    new: SignalImpl,
    ctx0: LocalContext,
    ctx1: LocalContext,
    r: SignalResult,
) -> bool {
    match old.handling_view() {
        HandlingState::User(_) => r == SignalResult::IsHandlingSignal && unchanged(old, new) && ctx1
            == ctx0,
        HandlingState::Suspended => {
            &&& ctx1 == ctx0
            &&& new.mask_view() == old.mask_view()
            &&& new.actions_view() == old.actions_view()
            &&& if old.pending_view().contains(SignalNo::SIGCONT) {
                &&& r == SignalResult::Handled
                &&& new.pending_view() == old.pending_view().remove(SignalNo::SIGCONT)
                &&& new.handling_view() is Idle
            } else {
                r == SignalResult::ProcessSuspended && unchanged(old, new)
            }
        },
        HandlingState::Idle => pending_processed(old, new, ctx0, ctx1, r),
    }
}

/// What a return from a signal handler does.
pub open spec fn signal_returned(
    old: SignalImpl,
    new: SignalImpl,
    ctx0: LocalContext,
    ctx1: LocalContext,
    r: bool,
) -> bool {
    match old.handling_view() {
        HandlingState::User(h) => {
            &&& r
            &&& ctx1 == h.context_view()
            &&& new.mask_view() == h.mask_view()
            &&& new.handling_view() is Idle
            &&& new.pending_view() == old.pending_view()
            &&& new.actions_view() == old.actions_view()
        },
        _ => !r && unchanged(old, new) && ctx1 == ctx0,
    }
}

} // verus!
