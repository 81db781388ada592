use isaidle::state::Event;
use isaidle::text::append_decimal;
use isaidle::wayland::{notification_plan, NotifierError, WlCommand};

#[test]
fn event_descriptions() {
    assert_eq!(Event::IdleTimerFired(2).describe(), "idle timer fired (rule 2)");
    assert_eq!(Event::IdleResumed(0).describe(), "user activity resumed (rule 0)");
    assert_eq!(Event::IdleTimerFired(1234).describe(), "idle timer fired (rule 1234)");
    assert_eq!(Event::LogindLock.describe(), "logind: session locked");
    assert_eq!(Event::LogindUnlock.describe(), "logind: session unlocked");
}

#[test]
fn decimal_rendering() {
    for n in [0usize, 7, 10, 99, 100, 4096, 1_000_000, usize::MAX] {
        let mut s = String::from("x=");
        append_decimal(&mut s, n);
        assert_eq!(s, format!("x={}", n));
    }
}

#[test]
fn plan_requires_seat_then_notifier() {
    let cmd = WlCommand::EnterScope(vec![(0, 30_000)]);
    assert_eq!(notification_plan(&cmd, false, false), Err(NotifierError::NoSeat));
    assert_eq!(notification_plan(&cmd, false, true), Err(NotifierError::NoSeat));
    assert_eq!(notification_plan(&cmd, true, false), Err(NotifierError::NoNotifier));
}

#[test]
fn plan_lists_requests_with_truncated_timeouts() {
    let cmd = WlCommand::EnterScope(vec![(0, 30_000), (3, 60_000), (5, (1u64 << 32) + 7), (6, u64::MAX)]);
    let plan = notification_plan(&cmd, true, true).unwrap();
    assert_eq!(plan, vec![(0, 30_000u32), (3, 60_000), (5, 7), (6, u32::MAX)]);
    let empty = WlCommand::EnterScope(Vec::new());
    assert_eq!(notification_plan(&empty, true, true), Ok(Vec::new()));
}
