use rcore_os::context::LocalContext;
use rcore_os::signal::{SignalAction, SignalNo, SignalResult};
use rcore_os::signal_impl::default_action::{default_action, is_unmaskable, DefaultAction};
use rcore_os::signal_impl::signal_set::SignalSet;
use rcore_os::signal_impl::SignalImpl;

#[test]
fn test_from_fork_inherits_mask_and_actions_without_pending_state() {
    let mut signal_impl = SignalImpl::new();
    let action = SignalAction {
        handler: 0x1000,
        mask: 0x2000,
    };
    signal_impl.set_action(SignalNo::SIGUSR1, &action);
    signal_impl.update_mask(0x55aa);
    signal_impl.add_signal(SignalNo::SIGTERM);

    let mut child = signal_impl.from_fork();
    let child_action = child.get_action_ref(SignalNo::SIGUSR1).unwrap();
    assert_eq!(child_action.handler, action.handler);
    assert_eq!(child_action.mask, action.mask);
    assert_eq!(child.update_mask(0x33), 0x55aa);

    let mut ctx = LocalContext::user(0x8000);
    assert_eq!(child.handle_signals(&mut ctx), SignalResult::NoSignal);
}

#[test]
fn test_clear_removes_installed_actions() {
    let mut signal_impl = SignalImpl::new();
    signal_impl.set_action(
        SignalNo::SIGINT,
        &SignalAction {
            handler: 0x1234,
            mask: 0x5678,
        },
    );
    signal_impl.clear();
    let cleared = signal_impl.get_action_ref(SignalNo::SIGINT).unwrap();
    assert_eq!(cleared.handler, 0);
    assert_eq!(cleared.mask, 0);
}

#[test]
fn test_user_handler_overrides_context_and_sigreturn_restores_it() {
    let mut signal_impl = SignalImpl::new();
    let action = SignalAction {
        handler: 0x4000,
        mask: 0,
    };
    let mut ctx = LocalContext::user(0x2000);
    *ctx.a_mut(0) = 0xdead_beef;
    let original = ctx.clone();

    signal_impl.set_action(SignalNo::SIGUSR1, &action);
    signal_impl.add_signal(SignalNo::SIGUSR1);

    assert_eq!(signal_impl.handle_signals(&mut ctx), SignalResult::Handled);
    assert!(signal_impl.is_handling_signal());
    assert_eq!(ctx.pc(), 0x4000);
    assert_eq!(ctx.a(0), SignalNo::SIGUSR1 as usize);

    assert!(signal_impl.sig_return(&mut ctx));
    assert!(!signal_impl.is_handling_signal());
    assert_eq!(ctx.pc(), original.pc());
    assert_eq!(ctx.a(0), original.a(0));
}

#[test]
fn test_default_actions_match_current_contract() {
    let mut signal_impl = SignalImpl::new();
    let mut ctx = LocalContext::user(0x3000);

    signal_impl.add_signal(SignalNo::SIGCHLD);
    assert_eq!(signal_impl.handle_signals(&mut ctx), SignalResult::Ignored);

    signal_impl.add_signal(SignalNo::SIGTERM);
    assert_eq!(
        signal_impl.handle_signals(&mut ctx),
        SignalResult::ProcessKilled(-(SignalNo::SIGTERM as i32))
    );
}

#[test]
fn test_stop_then_continue_flow_matches_contract() {
    let mut signal_impl = SignalImpl::new();
    let mut ctx = LocalContext::user(0x5000);

    signal_impl.add_signal(SignalNo::SIGSTOP);
    assert_eq!(signal_impl.handle_signals(&mut ctx), SignalResult::ProcessSuspended);
    assert!(signal_impl.is_handling_signal());
    assert_eq!(signal_impl.handle_signals(&mut ctx), SignalResult::ProcessSuspended);

    signal_impl.add_signal(SignalNo::SIGCONT);
    assert_eq!(signal_impl.handle_signals(&mut ctx), SignalResult::Handled);
    assert!(!signal_impl.is_handling_signal());
}

#[test]
fn masked_signal_waits_and_lowest_number_goes_first() {
    let mut s = SignalImpl::new();
    let mut ctx = LocalContext::user(0x1000);
    s.update_mask(1usize << (SignalNo::SIGTERM as usize));
    s.add_signal(SignalNo::SIGTERM);
    // Pending but masked: reported as ignored, and it stays pending.
    assert_eq!(s.handle_signals(&mut ctx), SignalResult::Ignored);
    assert_eq!(ctx.pc(), 0x1000);
    s.add_signal(SignalNo::SIGURG);
    s.add_signal(SignalNo::SIGCHLD);
    // SIGCHLD (17) is below SIGURG (23); both are ignored by default.
    assert_eq!(s.handle_signals(&mut ctx), SignalResult::Ignored);
    assert_eq!(s.handle_signals(&mut ctx), SignalResult::Ignored);
    assert_eq!(s.handle_signals(&mut ctx), SignalResult::Ignored);
    s.update_mask(0);
    assert_eq!(s.handle_signals(&mut ctx), SignalResult::ProcessKilled(-15));
    assert_eq!(s.handle_signals(&mut ctx), SignalResult::NoSignal);
}

#[test]
fn kill_ignores_mask_and_cannot_be_caught() {
    let mut s = SignalImpl::new();
    let mut ctx = LocalContext::user(0x1000);
    let action = SignalAction { handler: 0x9000, mask: 0 };
    assert!(!s.set_action(SignalNo::SIGKILL, &action));
    assert!(!s.set_action(SignalNo::SIGSTOP, &action));
    assert!(!s.set_action(SignalNo::ERR, &action));
    assert_eq!(s.get_action_ref(SignalNo::ERR), None);
    assert_eq!(s.get_action_ref(SignalNo::SIGKILL).unwrap().handler, 0);
    s.update_mask(usize::MAX);
    s.add_signal(SignalNo::SIGKILL);
    assert_eq!(s.handle_signals(&mut ctx), SignalResult::ProcessKilled(-9));
    assert_eq!(ctx.pc(), 0x1000);
}

#[test]
fn handler_widens_mask_until_return_and_blocks_reentry() {
    let mut s = SignalImpl::new();
    let mut ctx = LocalContext::user(0x2000);
    *ctx.sp_mut() = 0x7000;
    let action = SignalAction { handler: 0x4000, mask: 0b100 };
    assert!(s.set_action(SignalNo::SIGUSR2, &action));
    s.update_mask(0b1);
    s.add_signal(SignalNo::SIGUSR2);
    assert_eq!(s.handle_signals(&mut ctx), SignalResult::Handled);
    assert_eq!(ctx.a(0), 12);
    assert_eq!(ctx.sp(), 0x7000);
    s.add_signal(SignalNo::SIGTERM);
    assert_eq!(s.handle_signals(&mut ctx), SignalResult::IsHandlingSignal);
    assert_eq!(s.update_mask(0b1 | 0b100 | (1 << 12)), 0b1 | 0b100 | (1 << 12));
    assert!(s.sig_return(&mut ctx));
    assert_eq!(ctx.pc(), 0x2000);
    assert_eq!(s.update_mask(0), 0b1);
    assert!(!s.sig_return(&mut ctx));
}

#[test]
fn signal_set_add_remove_contains() {
    let mut set = SignalSet::default();
    assert!(!set.contains(SignalNo::SIGINT));
    set.add(SignalNo::SIGINT);
    set.add(SignalNo::ERR);
    assert!(set.contains(SignalNo::SIGINT));
    assert!(!set.contains(SignalNo::ERR));
    assert!(set.remove(SignalNo::SIGINT));
    assert!(!set.remove(SignalNo::SIGINT));
    assert!(!set.remove(SignalNo::ERR));
    set.add(SignalNo::SIGRT31);
    set.clear();
    assert!(!set.contains(SignalNo::SIGRT31));
}

#[test]
fn default_action_table() {
    assert_eq!(default_action(SignalNo::SIGCHLD), DefaultAction::Ignore);
    assert_eq!(default_action(SignalNo::SIGWINCH), DefaultAction::Ignore);
    assert_eq!(default_action(SignalNo::ERR), DefaultAction::Ignore);
    assert_eq!(default_action(SignalNo::SIGTSTP), DefaultAction::Stop);
    assert_eq!(default_action(SignalNo::SIGCONT), DefaultAction::Continue);
    assert_eq!(default_action(SignalNo::SIGSEGV), DefaultAction::Terminate);
    assert_eq!(default_action(SignalNo::SIGRT5), DefaultAction::Terminate);
    assert!(is_unmaskable(SignalNo::SIGKILL));
    assert!(is_unmaskable(SignalNo::SIGSTOP));
    assert!(!is_unmaskable(SignalNo::SIGTERM));
}
