use libevent::{raw_fd, to_timeval, Base, EventFlags, EventHandle, LoopFlags, Registration, RegistrationError, ExitReason};

#[test]
fn timer_uses_sentinel_descriptor() {
    assert_eq!(raw_fd(None), -1);
    assert_eq!(raw_fd(Some(5)), 5);
}

#[test]
fn new_handle_is_unarmed() {
    let mut b = Base::new();
    assert_eq!(b.len(), 0);
    let h = b.event_new(Some(4), EventFlags::read());
    assert_eq!(h.id, 0);
    assert_eq!(b.len(), 1);
    assert_eq!(
        b.registration(&h),
        Some(Registration { fd: Some(4), flags: EventFlags::read(), timeout: None, pending: false })
    );
    assert!(!b.is_pending(&h));
    assert!(!b.has_pending());
    assert_eq!(b.event_new(None, EventFlags::timeout()).id, 1);
}

#[test]
fn add_arms_with_timeout() {
    let mut b = Base::new();
    let h = b.event_new(Some(4), EventFlags::read());
    let t = to_timeval(1, 500_000_000);
    assert_eq!(b.event_add(&h, Some(t)), Ok(()));
    assert!(b.is_pending(&h));
    assert!(b.has_pending());
    assert_eq!(b.registration(&h).unwrap().timeout, Some(t));
}

#[test]
fn timer_without_timeout_is_refused() {
    let mut b = Base::new();
    let h = b.event_new(None, EventFlags::persist());
    assert_eq!(b.event_add(&h, None), Err(RegistrationError::NeverFires));
    assert!(!b.is_pending(&h));
}

#[test]
fn descriptor_without_timeout_is_armed() {
    let mut b = Base::new();
    let h = b.event_new(Some(3), EventFlags::write());
    assert_eq!(b.event_add(&h, None), Ok(()));
    assert!(b.is_pending(&h));
}

#[test]
fn unknown_handle_is_refused() {
    let mut b = Base::new();
    let h = EventHandle { id: 3 };
    assert_eq!(b.event_add(&h, None), Err(RegistrationError::UnknownHandle));
    assert_eq!(b.disable(&h), Err(RegistrationError::UnknownHandle));
    assert_eq!(b.enable(&h), Err(RegistrationError::UnknownHandle));
    assert_eq!(b.event_assign(&h, None, EventFlags::timeout()), Err(RegistrationError::UnknownHandle));
    assert_eq!(b.registration(&h), None);
    assert_eq!(b.dispatch(&h, 0x02), None);
}

#[test]
fn assign_on_armed_handle_is_refused() {
    let mut b = Base::new();
    let h = b.event_new(Some(4), EventFlags::read());
    b.event_add(&h, None).unwrap();
    assert_eq!(b.event_assign(&h, Some(5), EventFlags::write()), Err(RegistrationError::Active));
    assert_eq!(b.registration(&h).unwrap().fd, Some(4));
}

#[test]
fn disable_is_idempotent() {
    let mut b = Base::new();
    let h = b.event_new(Some(4), EventFlags::read());
    b.event_add(&h, None).unwrap();
    assert_eq!(b.disable(&h), Ok(()));
    assert!(!b.is_pending(&h));
    assert_eq!(b.disable(&h), Ok(()));
    assert!(!b.is_pending(&h));
}

#[test]
fn enable_rearms_with_last_timeout() {
    let mut b = Base::new();
    let h = b.event_new(None, EventFlags::timeout());
    let t = to_timeval(0, 10_000_000);
    b.event_add(&h, Some(t)).unwrap();
    b.disable(&h).unwrap();
    assert_eq!(b.enable(&h), Ok(()));
    assert!(b.is_pending(&h));
    assert_eq!(b.registration(&h).unwrap().timeout, Some(t));
}

#[test]
fn enable_of_never_armed_timer_is_refused() {
    let mut b = Base::new();
    let h = b.event_new(None, EventFlags::timeout());
    assert_eq!(b.enable(&h), Err(RegistrationError::NeverFires));
}

#[test]
fn read_notice_dispatches_once_with_read() {
    let mut b = Base::new();
    let h = b.event_new(Some(4), EventFlags::read());
    b.event_add(&h, None).unwrap();
    let f = b.dispatch(&h, 0x02).unwrap();
    assert!(f.contains(EventFlags::read()));
    assert_eq!(b.dispatch(&h, 0x02), None);
    assert!(!b.is_pending(&h));
}

#[test]
fn dispatch_hands_only_known_bits() {
    let mut b = Base::new();
    let h = b.event_new(Some(4), EventFlags::read().union(EventFlags::persist()));
    b.event_add(&h, None).unwrap();
    assert_eq!(b.dispatch(&h, 0x1_06).map(|f| f.bits()), Some(0x06));
}

#[test]
fn disabled_handle_never_fires() {
    let mut b = Base::new();
    let h = b.event_new(Some(4), EventFlags::read().union(EventFlags::persist()));
    b.event_add(&h, None).unwrap();
    b.disable(&h).unwrap();
    assert_eq!(b.dispatch(&h, 0x02), None);
    assert_eq!(b.dispatch(&h, 0x02), None);
}

#[test]
fn persistent_handle_fires_repeatedly() {
    let mut b = Base::new();
    let h = b.event_new(None, EventFlags::persist());
    b.event_add(&h, Some(to_timeval(0, 1_000_000))).unwrap();
    for _ in 0..3 {
        assert_eq!(b.dispatch(&h, 0x01), Some(EventFlags::timeout()));
    }
    assert!(b.is_pending(&h));
}

#[test]
fn break_stops_dispatch_until_next_pass() {
    let mut b = Base::new();
    let h1 = b.event_new(Some(4), EventFlags::read());
    let h2 = b.event_new(Some(5), EventFlags::read());
    b.event_add(&h1, None).unwrap();
    b.event_add(&h2, None).unwrap();
    assert!(b.dispatch(&h1, 0x02).is_some());
    b.loopbreak();
    assert!(b.break_requested());
    assert_eq!(b.dispatch(&h2, 0x02), None);
    assert!(b.is_pending(&h2));
    assert_eq!(b.loop_(LoopFlags::empty(), 0, false, true), ExitReason::GotBreak);
    b.begin_pass();
    assert!(!b.break_requested());
    assert!(b.dispatch(&h2, 0x02).is_some());
}

#[test]
fn continue_withdraws_break() {
    let mut b = Base::new();
    let h = b.event_new(Some(4), EventFlags::read());
    b.event_add(&h, None).unwrap();
    b.loopbreak();
    b.loopcontinue();
    assert!(b.dispatch(&h, 0x02).is_some());
}

#[test]
fn reassigned_handle_matches_fresh_one() {
    let t = Some(to_timeval(2, 0));
    let mut b = Base::new();
    let h = b.event_new(Some(4), EventFlags::read().union(EventFlags::persist()));
    b.event_add(&h, Some(to_timeval(9, 0))).unwrap();
    b.disable(&h).unwrap();
    assert_eq!(b.event_assign(&h, None, EventFlags::timeout()), Ok(()));
    assert_eq!(b.event_add(&h, t), Ok(()));

    let mut c = Base::new();
    let g = c.event_new(None, EventFlags::timeout());
    assert_eq!(c.event_add(&g, t), Ok(()));

    assert_eq!(b.registration(&h), c.registration(&g));
    assert_eq!(b.dispatch(&h, 0x01), c.dispatch(&g, 0x01));
    assert_eq!(b.registration(&h), c.registration(&g));
}
