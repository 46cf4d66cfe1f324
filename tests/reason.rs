use libevent::{ExitReason, LoopFlags};

#[test]
fn normal_end_with_exit_mark_is_exit() {
    let r = ExitReason::from_dispatch(LoopFlags::empty(), 0, true, false);
    assert_eq!(r, ExitReason::GotExit);
}

#[test]
fn exit_mark_is_reported_before_break_mark() {
    let r = ExitReason::from_dispatch(LoopFlags::empty(), 0, true, true);
    assert_eq!(r, ExitReason::GotExit);
}

#[test]
fn normal_end_with_break_mark_is_break() {
    let r = ExitReason::from_dispatch(LoopFlags::once(), 0, false, true);
    assert_eq!(r, ExitReason::GotBreak);
}

#[test]
fn normal_end_without_marks_is_unknown() {
    let r = ExitReason::from_dispatch(LoopFlags::nonblock(), 0, false, false);
    assert_eq!(r, ExitReason::Unknown { flags: LoopFlags::nonblock(), exit_code: 0 });
    assert!(r.completed());
}

#[test]
fn minus_one_is_error() {
    let r = ExitReason::from_dispatch(LoopFlags::empty(), -1, true, true);
    assert_eq!(r, ExitReason::Error);
    assert!(!r.completed());
}

#[test]
fn one_is_no_pending_events() {
    let r = ExitReason::from_dispatch(LoopFlags::empty(), 1, false, false);
    assert_eq!(r, ExitReason::NoPendingEvents);
    assert!(r.completed());
}

#[test]
fn other_codes_are_unknown() {
    let r = ExitReason::from_dispatch(LoopFlags::once(), 7, true, false);
    assert_eq!(r, ExitReason::Unknown { flags: LoopFlags::once(), exit_code: 7 });
    let r = ExitReason::from_dispatch(LoopFlags::empty(), -2, false, false);
    assert_eq!(r, ExitReason::Unknown { flags: LoopFlags::empty(), exit_code: -2 });
}
