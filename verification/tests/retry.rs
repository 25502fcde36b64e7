use beth_idle::retry::{timed_out, timed_out_message, Failure, Outcome, RetryError, RetryState, Verdict};
use beth_idle::text::decimal_text;
use beth_idle::time::Duration;

/// Makes attempts with the given outcomes; returns their number, the sleeps and the result.
fn drive(
    mut state: RetryState,
    mut f: impl FnMut(usize) -> Outcome<u8, &'static str>,
) -> (usize, Vec<Duration>, Result<u8, Failure<&'static str>>) {
    let mut calls = 0;
    let mut sleeps = Vec::new();
    loop {
        let attempt = state.attempt();
        calls += 1;
        assert_eq!(attempt, calls);
        match state.settle(f(attempt)) {
            Verdict::Return(res) => return (calls, sleeps, res),
            Verdict::Retry { backoff, .. } => sleeps.push(backoff),
        }
    }
}

#[test]
fn retries_are_bounded_and_eventually_fail() {
    let state = RetryState::new(2, Duration::from_secs(1), Duration::from_millis(0));
    let (calls, sleeps, res) =
        drive(state, |_attempt| Outcome::Finished(Err(RetryError::retryable("boom"))));
    assert!(res.is_err());
    assert!(matches!(res, Err(Failure::Error("boom"))));
    assert_eq!(calls, 3);
    assert_eq!(sleeps, vec![Duration::from_millis(0); 2]);
}

#[test]
fn no_retries_means_one_attempt() {
    let state = RetryState::new(0, Duration::from_secs(1), Duration::from_millis(5));
    let (calls, sleeps, res) = drive(state, |_| Outcome::TimedOut);
    assert_eq!(calls, 1);
    assert!(sleeps.is_empty());
    match res {
        Err(Failure::TimedOut { attempt, after }) => {
            assert_eq!(attempt, 1);
            assert_eq!(after, Duration::from_secs(1));
        }
        other => panic!("{other:?}"),
    }
}

#[test]
fn permanent_error_ends_at_once() {
    let state = RetryState::new(9, Duration::from_secs(1), Duration::from_millis(5));
    let (calls, sleeps, res) = drive(state, |attempt| match attempt {
        1 => Outcome::TimedOut,
        _ => Outcome::Finished(Err(RetryError::permanent("gone"))),
    });
    assert_eq!(calls, 2);
    assert_eq!(sleeps.len(), 1);
    assert!(matches!(res, Err(Failure::Error("gone"))));
}

#[test]
fn success_ends_at_once() {
    let state = RetryState::new(9, Duration::from_secs(1), Duration::from_millis(5));
    let (calls, _, res) = drive(state, |attempt| match attempt {
        1 | 2 => Outcome::Finished(Err(RetryError::retryable("busy"))),
        _ => Outcome::Finished(Ok(42)),
    });
    assert_eq!(calls, 3);
    assert!(matches!(res, Ok(42)));
}

#[test]
fn backoff_grows_linearly() {
    let state = RetryState::new(4, Duration::from_secs(1), Duration::from_millis(250));
    let (_, sleeps, _) = drive(state, |_| Outcome::TimedOut);
    let millis: Vec<Duration> =
        vec![250, 500, 750, 1_000].into_iter().map(Duration::from_millis).collect();
    assert_eq!(sleeps, millis);
}

#[test]
fn backoff_saturates() {
    let longest = Duration::new(u64::MAX, 999_999_999);
    let state = RetryState::new(2, Duration::from_secs(1), Duration::from_secs(u64::MAX));
    assert_eq!(state.attempt_timeout(), Duration::from_secs(1));
    let (_, sleeps, _) = drive(state, |_| Outcome::TimedOut);
    assert_eq!(sleeps, vec![Duration::from_secs(u64::MAX), longest]);
}

#[test]
fn retry_names_its_cause() {
    let mut state = RetryState::new(1, Duration::from_secs(3), Duration::from_millis(1));
    let verdict: Verdict<u8, &str> = state.settle(Outcome::TimedOut);
    match verdict {
        Verdict::Retry { cause: Failure::TimedOut { attempt, after }, .. } => {
            assert_eq!((attempt, after), (1, Duration::from_secs(3)));
        }
        other => panic!("{other:?}"),
    }
    assert_eq!(state.attempt(), 2);
}

#[test]
fn timeout_is_told_with_number_and_span() {
    assert_eq!(
        timed_out(3, Duration::from_millis(1_500)),
        "beth-idle: attempt 3 timed out after 1.5s"
    );
    assert_eq!(
        timed_out(12, Duration::from_millis(20)),
        "beth-idle: attempt 12 timed out after 20ms"
    );
    assert_eq!(timed_out_message(1, "soon"), "beth-idle: attempt 1 timed out after soon");
    let longest = std::time::Duration::new(u64::MAX, 999_999_999);
    assert_eq!(
        Duration::new(u64::MAX, 999_999_999).to_text(),
        format!("{longest:?}")
    );
}

#[test]
fn numbers_are_written_in_decimal() {
    for n in [0, 7, 9, 10, 42, 100, 1_234_567_890, usize::MAX] {
        assert_eq!(decimal_text(n), n.to_string());
    }
}

#[test]
fn attempts_can_be_numbered() {
    let mut state = RetryState::new(usize::MAX, Duration::from_secs(1), Duration::from_millis(0));
    assert!(state.can_attempt());
    let verdict: Verdict<u8, &str> = state.settle(Outcome::TimedOut);
    assert!(matches!(verdict, Verdict::Retry { .. }));
    assert!(state.can_attempt());
}
