use beth_idle::monitor::{Monitor, MonitorAction, MonitorInput, MonitorStep};
use beth_idle::request_id::RequestId;
use beth_idle::time::{Duration, Instant};
use beth_idle::{IdleConfig, IdleEvent};

fn secs(n: u64) -> Instant {
    Instant::at(Duration::from_secs(n))
}

fn monitor(window: u64) -> Monitor {
    let cfg = IdleConfig::new(Duration::from_secs(window)).unwrap();
    Monitor::new(cfg, secs(0))
}

fn step(m: &mut Monitor, input: MonitorInput) -> MonitorStep {
    assert!(m.accepts(input));
    m.step(input)
}

fn tick(m: &mut Monitor, now: u64, best: u64) -> MonitorStep {
    step(m, MonitorInput::Tick { now: secs(now), best_block: Some(best) })
}

fn finish(m: &mut Monitor, now: u64, succeeded: bool) -> MonitorStep {
    step(m, MonitorInput::SuspendFinished { now: secs(now), succeeded })
}

fn event_of(s: MonitorStep) -> IdleEvent {
    match s.action {
        MonitorAction::Suspend(event) => event,
        other => panic!("no suspension: {other:?}"),
    }
}

/// Ticks at `now`, and carries out a suspension where one is asked for.
fn tick_and_suspend(m: &mut Monitor, now: u64, best: u64) -> usize {
    match tick(m, now, best).action {
        MonitorAction::Suspend(_) => {
            assert_eq!(finish(m, now, true).action, MonitorAction::AwaitTick);
            1
        }
        MonitorAction::AwaitTick => 0,
        MonitorAction::Stop => panic!("the monitor stopped by itself"),
    }
}

#[test]
fn monitor_suspends_without_cancelling_shutdown_and_cycles() {
    let mut m = monitor(2);
    let mut suspend_calls = tick_and_suspend(&mut m, 0, 1);

    for _ in 0..3 {
        suspend_calls += tick_and_suspend(&mut m, 3, 1);
    }
    assert_eq!(suspend_calls, 1);
    assert!(m.accepts(MonitorInput::Shutdown));

    for _ in 0..3 {
        suspend_calls += tick_and_suspend(&mut m, 6, 1);
    }
    assert_eq!(suspend_calls, 2);
    assert!(m.accepts(MonitorInput::Shutdown));

    assert_eq!(step(&mut m, MonitorInput::Shutdown).action, MonitorAction::Stop);
    assert!(!m.accepts(MonitorInput::Shutdown));
}

#[test]
fn event_describes_the_idle_machine() {
    let cfg = IdleConfig::new(Duration::from_secs(10)).unwrap();
    let mut m = Monitor::new(cfg, secs(100));
    let first = tick(&mut m, 104, 77);
    assert_eq!(first, MonitorStep { restarted: Some(4), action: MonitorAction::AwaitTick });
    let second = tick(&mut m, 113, 77);
    assert_eq!(second, MonitorStep { restarted: None, action: MonitorAction::AwaitTick });

    let third = step(
        &mut m,
        MonitorInput::Tick { now: Instant::at(Duration::from_millis(115_999)), best_block: Some(77) },
    );
    assert_eq!(third.restarted, None);
    let event = event_of(third);
    assert_eq!(event.last_best_block_number, 77);
    assert_eq!(event.idle_timer, Duration::from_secs(10));
    assert_eq!(event.last_seen_elapsed_secs, 4);
    assert_eq!(event.triggered_elapsed_secs, 15);
}

#[test]
fn every_suspension_has_its_own_random_identifier() {
    let mut m = monitor(1);
    tick(&mut m, 0, 1);
    let a = event_of(tick(&mut m, 1, 1)).request_id;
    finish(&mut m, 1, true);
    let b = event_of(tick(&mut m, 2, 1)).request_id;
    assert_ne!(a, b);
    for id in [a, b] {
        let uuid = uuid::Uuid::from_u128(id.bits);
        assert_eq!(uuid.get_version_num(), 4);
        assert_eq!(uuid.get_variant(), uuid::Variant::RFC4122);
    }
}

#[test]
fn failed_suspension_is_retried_after_the_next_window() {
    let mut m = monitor(5);
    tick(&mut m, 0, 1);
    event_of(tick(&mut m, 5, 1));
    finish(&mut m, 8, false);
    assert_eq!(tick(&mut m, 12, 1).action, MonitorAction::AwaitTick);
    let event = event_of(tick(&mut m, 13, 1));
    assert_eq!(event.last_seen_elapsed_secs, 8);
}

#[test]
fn activity_delays_the_suspension() {
    let mut m = monitor(5);
    tick(&mut m, 0, 1);
    assert_eq!(tick(&mut m, 4, 2).restarted, Some(4));
    let failed = MonitorInput::Tick { now: secs(8), best_block: None };
    assert!(m.restarts(failed));
    assert_eq!(step(&mut m, failed), MonitorStep { restarted: None, action: MonitorAction::AwaitTick });
    assert_eq!(tick(&mut m, 12, 2).action, MonitorAction::AwaitTick);
    let event = event_of(tick(&mut m, 13, 2));
    assert_eq!(event.last_seen_elapsed_secs, 4);
    assert_eq!(event.triggered_elapsed_secs, 13);
}

#[test]
fn failed_polls_alone_never_suspend() {
    let mut m = monitor(1);
    for now in 0..10 {
        let failed = MonitorInput::Tick { now: secs(now), best_block: None };
        assert!(!m.restarts(failed));
        assert_eq!(step(&mut m, failed).action, MonitorAction::AwaitTick);
    }
}

#[test]
fn monitor_waits_for_the_right_input() {
    let t = MonitorInput::Tick { now: secs(9), best_block: Some(1) };
    let f = MonitorInput::SuspendFinished { now: secs(9), succeeded: true };
    let mut m = monitor(3);
    assert!(m.accepts(t) && !m.accepts(f));
    assert!(m.restarts(t) && !m.restarts(f) && !m.restarts(MonitorInput::Shutdown));
    tick(&mut m, 0, 1);
    assert!(!m.restarts(t) && m.restarts(f));
    event_of(tick(&mut m, 3, 1));
    assert!(!m.accepts(t) && m.accepts(f) && m.accepts(MonitorInput::Shutdown));
    assert_eq!(step(&mut m, MonitorInput::Shutdown).action, MonitorAction::Stop);
    assert!(!m.accepts(t) && !m.accepts(f));
}

#[test]
fn given_identifier_is_reported() {
    let mut m = monitor(2);
    assert_eq!(m.poll(secs(1), Some(5)), Some(1));
    assert_eq!(m.poll(secs(3), Some(5)), None);
    let request_id = RequestId { bits: 99 };
    let event = m.fire(secs(3), request_id);
    assert_eq!(
        event,
        IdleEvent {
            request_id,
            last_best_block_number: 5,
            idle_timer: Duration::from_secs(2),
            last_seen_elapsed_secs: 1,
            triggered_elapsed_secs: 3,
        }
    );
}
