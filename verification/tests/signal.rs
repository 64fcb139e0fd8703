use rcore_os::signal::{SignalAction, SignalNo, SignalResult, MAX_SIG};

#[test]
fn test_signal_result_variants_are_constructible() {
    assert!(matches!(SignalResult::NoSignal, SignalResult::NoSignal));
    assert!(matches!(SignalResult::IsHandlingSignal, SignalResult::IsHandlingSignal));
    assert!(matches!(SignalResult::Ignored, SignalResult::Ignored));
    assert!(matches!(SignalResult::Handled, SignalResult::Handled));
    assert!(matches!(SignalResult::ProcessKilled(-9), SignalResult::ProcessKilled(-9)));
    assert!(matches!(SignalResult::ProcessSuspended, SignalResult::ProcessSuspended));
}

#[test]
fn test_signal_action_and_constants_match_contract() {
    let action = SignalAction {
        handler: 0x1000,
        mask: 0x2000,
    };
    assert_eq!(action.handler, 0x1000);
    assert_eq!(action.mask, 0x2000);
    assert_eq!(SignalAction::default().handler, 0);
    assert_eq!(SignalAction::default().mask, 0);
    assert_eq!(SignalNo::SIGINT as u8, 2);
    assert_eq!(SignalNo::SIGKILL as u8, 9);
    assert_eq!(MAX_SIG, 31);
}
