use kanal::signal::Signal;
use kanal::wait::{BridgeAction, BridgeWait, ThreadWait, WaitAction};
use kanal::wake::WakeAction;
use kanal::{LOCKED, LOCKED_ESCALATED, TERMINATED, UNLOCKED};

/// Drives a thread waiter against `s` until it escalates or finishes.
fn spin_until_escalation(s: &Signal<u64>, w: &mut ThreadWait) -> WaitAction {
    loop {
        match w.on_status(s.state()) {
            WaitAction::Yield => continue,
            other => return other,
        }
    }
}

#[test]
fn deliver_wakes_blocked_waiter_with_value() {
    let mut s: Signal<u64> = Signal::new_sync(None);
    let mut w = ThreadWait::new();
    assert_eq!(spin_until_escalation(&s, &mut w), WaitAction::Escalate);
    let cas = s.escalate(9);
    assert_eq!(cas, Ok(LOCKED));
    assert_eq!(w.on_escalation(cas), WaitAction::Park);
    assert_eq!(s.state(), LOCKED_ESCALATED);
    assert_eq!(w.on_status(s.state()), WaitAction::Park);
    assert_eq!(s.send(42), WakeAction::Unpark(9));
    assert_eq!(w.on_status(s.state()), WaitAction::Finish(true));
    assert_eq!(s.poll(), Some(true));
    assert_eq!(s.assume_init(), 42);
}

#[test]
fn terminate_wakes_blocked_waiter_without_value() {
    let mut s: Signal<u64> = Signal::new_sync(None);
    let mut w = ThreadWait::new();
    assert_eq!(spin_until_escalation(&s, &mut w), WaitAction::Escalate);
    let cas = s.escalate(3);
    assert_eq!(w.on_escalation(cas), WaitAction::Park);
    assert_eq!(s.terminate(), WakeAction::Unpark(3));
    assert_eq!(w.on_status(s.state()), WaitAction::Finish(false));
    assert!(s.is_terminated());
    assert_eq!(s.poll(), Some(false));
}

#[test]
fn waiter_spins_exactly_the_limit_before_escalating() {
    let s: Signal<u64> = Signal::new_sync(None);
    let mut w = ThreadWait::new();
    let mut yields = 0u32;
    loop {
        match w.on_status(s.state()) {
            WaitAction::Yield => yields += 1,
            WaitAction::Escalate => break,
            other => panic!("unexpected {:?}", other),
        }
    }
    assert_eq!(yields, 25);
}

#[test]
fn resolution_before_escalation_needs_no_wake() {
    let mut s: Signal<u64> = Signal::new_sync(None);
    assert_eq!(s.send(5), WakeAction::Nothing);
    assert_eq!(s.state(), UNLOCKED);
    let mut w = ThreadWait { spins_left: 0, escalated: false };
    assert_eq!(w.on_status(s.state()), WaitAction::Finish(true));
    assert_eq!(s.assume_init(), 5);
}

#[test]
fn escalation_loses_to_earlier_termination() {
    let mut s: Signal<u64> = Signal::new_sync(None);
    assert_eq!(s.terminate(), WakeAction::Nothing);
    let cas = s.escalate(1);
    assert_eq!(cas, Err(TERMINATED));
    assert_eq!(s.state(), TERMINATED);
    let mut w = ThreadWait { spins_left: 0, escalated: false };
    assert_eq!(w.on_escalation(cas), WaitAction::Finish(false));
}

#[test]
fn escalation_loses_to_earlier_delivery() {
    let mut s: Signal<u64> = Signal::new_sync(None);
    s.send(8);
    let cas = s.escalate(1);
    assert_eq!(cas, Err(UNLOCKED));
    let mut w = ThreadWait { spins_left: 0, escalated: false };
    assert_eq!(w.on_escalation(cas), WaitAction::Finish(true));
    assert_eq!(s.assume_init(), 8);
}

#[test]
fn consume_takes_offered_value() {
    let mut s: Signal<String> = Signal::new_sync(Some("payload".to_string()));
    let (v, act) = s.recv();
    assert_eq!(v, "payload");
    assert_eq!(act, WakeAction::Nothing);
    assert_eq!(s.poll(), Some(true));
}

#[test]
fn send_copy_leaves_value_with_caller() {
    let mut s: Signal<(u64, u64)> = Signal::new_sync(None);
    let d = (7, 11);
    s.send_copy(&d);
    assert_eq!(d, (7, 11));
    assert_eq!(s.assume_init(), (7, 11));
}

#[test]
fn multi_word_payload_is_read_whole() {
    let payload: Vec<u64> = (0..64).collect();
    let mut s: Signal<Vec<u64>> = Signal::new_sync(None);
    s.escalate(2);
    assert_eq!(s.send(payload.clone()), WakeAction::Unpark(2));
    assert_eq!(s.poll(), Some(true));
    assert_eq!(s.assume_init(), payload);
}

#[test]
fn task_mode_poll_and_wake() {
    let mut s: Signal<u64> = Signal::new_async();
    assert_eq!(s.poll(), None);
    s.register_waker(17);
    assert!(s.will_wake(17));
    assert!(!s.will_wake(18));
    s.register_waker(18);
    assert!(s.will_wake(18));
    assert_eq!(s.send(99), WakeAction::WakeTask(18));
    assert_eq!(s.poll(), Some(true));
    assert_eq!(s.assume_init(), 99);
}

#[test]
fn task_mode_terminate_wakes_task() {
    let mut s: Signal<u64> = Signal::new_async();
    s.register_waker(4);
    assert_eq!(s.terminate(), WakeAction::WakeTask(4));
    assert_eq!(s.poll(), Some(false));
    assert!(s.is_terminated());
}

#[test]
fn task_mode_late_binding_and_drop() {
    let mut s: Signal<String> = Signal::new_async();
    s.set_ptr(Some("late".to_string()));
    s.register_waker(1);
    let (v, act) = s.recv();
    assert_eq!(v, "late");
    assert_eq!(act, WakeAction::WakeTask(1));

    let mut t: Signal<String> = Signal::new_async_ptr(Some("dropped".to_string()));
    t.register_waker(2);
    t.terminate();
    t.load_and_drop();
    assert_eq!(t.poll(), Some(false));
}

#[test]
fn pending_signal_is_not_terminated() {
    let s: Signal<u64> = Signal::new_sync(None);
    assert_eq!(s.state(), LOCKED);
    assert!(!s.is_terminated());
    assert_eq!(s.poll(), None);
}

#[test]
fn bridge_wait_yields_then_sleeps_up_to_cap() {
    let mut b = BridgeWait::new();
    let mut yields = 0u32;
    let mut sleeps: Vec<u64> = Vec::new();
    for _ in 0..50 {
        match b.on_status(LOCKED) {
            BridgeAction::Yield => yields += 1,
            BridgeAction::Sleep(d) => sleeps.push(d),
            BridgeAction::Finish(_) => panic!("pending signal finished"),
        }
    }
    assert_eq!(yields, 32);
    assert_eq!(
        &sleeps[..10],
        &[1024, 2048, 4096, 8192, 16384, 32768, 65536, 131072, 262144, 262144]
    );
    assert!(sleeps.iter().all(|&d| d <= 262144));
    assert_eq!(b.on_status(UNLOCKED), BridgeAction::Finish(true));
    assert_eq!(b.on_status(TERMINATED), BridgeAction::Finish(false));
}

#[test]
fn resolved_status_survives_waiter_steps() {
    let mut s: Signal<u64> = Signal::new_sync(None);
    s.terminate();
    assert_eq!(s.escalate(4), Err(TERMINATED));
    assert_eq!(s.state(), TERMINATED);
    assert_eq!(s.poll(), Some(false));
    let mut w = ThreadWait { spins_left: 3, escalated: true };
    assert_eq!(w.on_status(s.state()), WaitAction::Finish(false));
}
