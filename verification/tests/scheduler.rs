use beth_idle::scheduler::IdleSchedulerState;
use beth_idle::time::{Duration, Instant};

fn start_instant() -> Instant {
    Instant::at(Duration::from_secs(1_000))
}

#[test]
fn reset_timer_on_new_block() {
    let idle = Duration::from_secs(300);
    let start = start_instant();
    let mut s = IdleSchedulerState::new(idle);

    assert!(s.observe_best_block(10, start));
    let new_block_at = start + Duration::from_secs(60);
    assert!(s.observe_best_block(11, new_block_at));

    assert!(!s.due(new_block_at + Duration::from_secs(299)));
    assert!(s.due(new_block_at + idle));
}

#[test]
fn triggers_after_idle_window() {
    let idle = Duration::from_secs(300);
    let start = start_instant();
    let mut s = IdleSchedulerState::new(idle);

    assert!(s.observe_best_block(42, start));
    assert!(!s.due(start + Duration::from_secs(299)));
    assert!(s.due(start + idle));
}

#[test]
fn trigger_is_reset_after_suspend_attempt() {
    let idle = Duration::from_secs(300);
    let start = start_instant();
    let mut s = IdleSchedulerState::new(idle);

    assert!(s.observe_best_block(1, start));
    assert!(s.due(start + idle));
    s.trigger();
    assert!(!s.due(start + idle + Duration::from_secs(1)));

    let resumed_at = start + idle + Duration::from_secs(10);
    s.reset_after_suspend_attempt(resumed_at);
    assert!(!s.due(resumed_at + Duration::from_secs(299)));
    assert!(s.due(resumed_at + idle));
}

#[test]
fn same_block_keeps_the_deadline() {
    let start = start_instant();
    let mut s = IdleSchedulerState::new(Duration::from_secs(300));
    assert!(s.observe_best_block(7, start));
    assert!(!s.observe_best_block(7, start + Duration::from_secs(200)));
    assert!(s.due(start + Duration::from_secs(300)));
    assert!(s.due(start + Duration::from_secs(301)));
    assert_eq!(s.last_best_block(), Some(7));
    assert_eq!(s.last_seen_at(), Some(start));
}

#[test]
fn older_block_restarts_the_timer() {
    let start = start_instant();
    let mut s = IdleSchedulerState::new(Duration::from_secs(300));
    assert!(s.observe_best_block(7, start));
    assert!(s.observe_best_block(6, start + Duration::from_secs(10)));
    assert!(!s.due(start + Duration::from_secs(300)));
    assert!(s.due(start + Duration::from_secs(310)));
}

#[test]
fn failed_poll_postpones_by_a_window() {
    let start = start_instant();
    let mut s = IdleSchedulerState::new(Duration::from_secs(300));
    assert!(s.observe_best_block(7, start));
    s.postpone(start + Duration::from_secs(100));
    assert!(!s.due(start + Duration::from_secs(399)));
    assert!(s.due(start + Duration::from_secs(400)));
    assert_eq!(s.last_seen_at(), Some(start));
}

#[test]
fn nothing_is_due_before_the_first_block() {
    let start = start_instant();
    let mut s = IdleSchedulerState::new(Duration::from_secs(0));
    assert!(!s.due(start));
    s.postpone(start);
    assert!(!s.due(start + Duration::from_secs(1_000)));
    s.trigger();
    assert!(s.is_suspending());
    s.reset_after_suspend_attempt(start);
    assert!(!s.is_suspending());
    assert!(!s.due(start + Duration::from_secs(1_000)));
    assert_eq!(s.last_best_block(), None);
    assert_eq!(s.last_seen_at(), None);
}

#[test]
fn nothing_else_is_due_during_a_suspension() {
    let start = start_instant();
    let idle = Duration::from_secs(3);
    let mut s = IdleSchedulerState::new(idle);
    assert!(s.observe_best_block(1, start));
    s.trigger();
    assert!(s.observe_best_block(2, start));
    assert!(!s.due(start + Duration::from_secs(100)));
    s.postpone(start);
    assert!(!s.due(start + Duration::from_secs(100)));
    assert_eq!(s.clone().idle_window(), idle);
}

#[test]
fn deadline_only_moves_later() {
    let start = start_instant();
    let at = |n: u64| start + Duration::from_secs(n);
    let mut s = IdleSchedulerState::new(Duration::from_secs(10));
    assert!(s.observe_best_block(1, at(0)));
    assert!(!s.due(at(9)) && s.due(at(10)));
    s.postpone(at(3));
    assert!(!s.due(at(12)) && s.due(at(13)));
    assert!(s.observe_best_block(2, at(3)));
    assert!(!s.due(at(12)) && s.due(at(13)));
    s.trigger();
    s.reset_after_suspend_attempt(at(20));
    assert!(!s.due(at(29)) && s.due(at(30)));
    assert!(!s.observe_best_block(2, at(25)));
    assert!(!s.due(at(29)) && s.due(at(30)));
    assert_eq!(s.last_seen_at(), Some(at(20)));
}

#[test]
fn reset_is_like_a_fresh_timer() {
    let idle = Duration::from_secs(10);
    let now = start_instant() + Duration::from_secs(50);
    let mut used = IdleSchedulerState::new(idle);
    assert!(used.observe_best_block(8, start_instant()));
    used.postpone(start_instant() + Duration::from_secs(5));
    used.trigger();
    used.reset_after_suspend_attempt(now);

    let mut fresh = IdleSchedulerState::new(idle);
    assert!(fresh.observe_best_block(8, now));
    assert_eq!(format!("{used:?}"), format!("{fresh:?}"));
}
