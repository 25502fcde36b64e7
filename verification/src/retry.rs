//! Retries with a linearly growing backoff, as a state machine.
//!
//! The caller makes an attempt, hands its outcome to [`RetryState::settle`] and then either
//! returns or sleeps and makes the next attempt.

use vstd::prelude::*;
use vstd::string::StringExecFns;

use crate::text::{decimal, decimal_text};
use crate::time::{Duration, MAX_NANOS};

verus! {

/// Why an attempt failed.
#[derive(Debug)]
pub enum RetryError<E> {
    /// Another attempt may succeed.
    Retryable(E),
    /// No attempt will succeed.
    Permanent(E),
}

impl<E> RetryError<E> {
    /// A failure after which another attempt may succeed.
    pub fn retryable(e: E) -> (err: RetryError<E>)
        ensures
            err == RetryError::Retryable(e),
    {
        RetryError::Retryable(e)
    }

    /// A failure after which no attempt will succeed.
    pub fn permanent(e: E) -> (err: RetryError<E>)
        ensures
            err == RetryError::Permanent(e),
    {
        RetryError::Permanent(e)
    }
}

/// How an attempt ended.
#[derive(Debug)]
pub enum Outcome<T, E> {
    /// The attempt came to an end by itself.
    Finished(Result<T, RetryError<E>>),
    /// The attempt was cut off at the attempt timeout.
    TimedOut,
}

/// Why all attempts together failed.
#[derive(Debug)]
pub enum Failure<E> {
    /// The last attempt failed with this error.
    Error(E),
    /// The last attempt was cut off.
    TimedOut { attempt: usize, after: Duration },
}

/// What is said of an attempt that was cut off, where `after` is the text of the attempt
/// timeout.
pub fn timed_out_message(attempt: usize, after: &str) -> (text: String)
    ensures
        text@ == "beth-idle: attempt "@ + decimal(attempt as nat) + " timed out after "@ + after@,
{
    "beth-idle: attempt ".to_string().concat(decimal_text(attempt).as_str()).concat(
        " timed out after ",
    ).concat(after)
}

/// What is said of an attempt that was cut off at the attempt timeout `after`.
pub fn timed_out(attempt: usize, after: Duration) -> (text: String)
    ensures
        text@ == "beth-idle: attempt "@ + decimal(attempt as nat) + " timed out after "@
            + after.spec_text(),
{
    timed_out_message(attempt, after.to_text().as_str())
}

/// What the caller is to do after an attempt.
#[derive(Debug)]
pub enum Verdict<T, E> {
    /// Return this result.
    Return(Result<T, Failure<E>>),
    /// Sleep for `backoff`, then make the next attempt.
    Retry { backoff: Duration, cause: Failure<E> },
}

impl<T, E> Outcome<T, E> {
    /// Whether another attempt may succeed: a retryable error or a timeout.
    pub open spec fn is_transient(self) -> bool {
        match self {
            Outcome::Finished(Ok(_)) => false,
            Outcome::Finished(Err(RetryError::Permanent(_))) => false,
            Outcome::Finished(Err(RetryError::Retryable(_))) => true,
            Outcome::TimedOut => true,
        }
    }
}

/// What a [`RetryState`] holds.
pub struct RetryView {
    /// How many attempts have failed so far.
    pub tries: nat,
    /// How many attempts may follow the first one.
    pub max_retries: nat,
    /// How long an attempt may take.
    pub attempt_timeout: Duration,
    /// The length of the first backoff in nanoseconds.
    pub backoff_base: nat,
}

impl RetryView {
    /// The state before the first attempt.
    pub open spec fn initial(
        max_retries: nat,
        attempt_timeout: Duration,
        backoff_base: nat,
    ) -> RetryView {
        RetryView { tries: 0, max_retries, attempt_timeout, backoff_base }
    }

    /// The number of the next attempt, counted from one.
    pub open spec fn attempt(self) -> nat {
        self.tries + 1
    }

    /// The failure that `outcome` of the next attempt amounts to, if it is not a success.
    pub open spec fn failure<T, E>(self, outcome: Outcome<T, E>) -> Failure<E>
        recommends
            !(outcome matches Outcome::Finished(Ok(_))),
    {
        match outcome {
            Outcome::Finished(Err(RetryError::Permanent(e))) => Failure::Error(e),
            Outcome::Finished(Err(RetryError::Retryable(e))) => Failure::Error(e),
            _ => Failure::TimedOut {
                attempt: self.attempt() as usize,
                after: self.attempt_timeout,
            },
        }
    }

    /// The result of all attempts if the next one ends with `outcome`; `None` where yet
    /// another attempt follows.
    pub open spec fn result<T, E>(self, outcome: Outcome<T, E>) -> Option<
        Result<T, Failure<E>>,
    > {
        match outcome {
            Outcome::Finished(Ok(value)) => Some(Ok(value)),
            _ => if outcome.is_transient() && self.tries < self.max_retries {
                None
            } else {
                Some(Err(self.failure(outcome)))
            },
        }
    }

    /// The sleep after the next attempt, in nanoseconds: the first backoff, as many times
    /// as attempts were made, or the longest span where that is shorter. The number of
    /// attempts counts modulo 2^32.
    pub open spec fn backoff(self) -> nat {
        let product = self.backoff_base * (self.attempt() % 0x1_0000_0000);
        if product <= MAX_NANOS {
            product
        } else {
            MAX_NANOS as nat
        }
    }

    /// The state once the next attempt has failed.
    pub open spec fn next(self) -> RetryView {
        RetryView { tries: self.tries + 1, ..self }
    }

    /// The attempts made, and the result, when attempts end with `outcomes` in turn; `None`
    /// where the outcomes run out first.
    pub open spec fn run<T, E>(self, outcomes: Seq<Outcome<T, E>>) -> Option<
        (nat, Result<T, Failure<E>>),
    >
        decreases outcomes.len(),
    {
        if outcomes.len() == 0 {
            None
        } else {
            match self.result(outcomes[0]) {
                Some(res) => Some((self.attempt(), res)),
                None => self.next().run(outcomes.drop_first()),
            }
        }
    }
}

/// How far a series of attempts has come.
#[derive(Debug)]
pub struct RetryState {
    tries: usize,
    max_retries: usize,
    attempt_timeout: Duration,
    backoff_base: Duration,
}

impl View for RetryState {
    type V = RetryView;

    closed spec fn view(&self) -> RetryView {
        RetryView {
            tries: self.tries as nat,
            max_retries: self.max_retries as nat,
            attempt_timeout: self.attempt_timeout,
            backoff_base: self.backoff_base@,
        }
    }
}

impl RetryState {
    #[verifier::type_invariant]
    pub open spec fn within_retries(self) -> bool {
        self@.tries <= self@.max_retries
    }

    /// The state before the first of at most `max_retries` + 1 attempts.
    pub fn new(max_retries: usize, attempt_timeout: Duration, backoff_base: Duration) -> (s:
        RetryState)
        ensures
            s@ == RetryView::initial(max_retries as nat, attempt_timeout, backoff_base@),
            s@.tries == 0,
            s@.max_retries == max_retries,
            s@.attempt_timeout == attempt_timeout,
            s@.backoff_base == backoff_base@,
    {
        RetryState { tries: 0, max_retries, attempt_timeout, backoff_base }
    }

    /// Whether the next attempt can still be numbered.
    pub fn can_attempt(&self) -> (yes: bool)
        ensures
            yes == (self@.attempt() <= usize::MAX),
            yes <==> self@.tries < usize::MAX,
    {
        self.tries < usize::MAX
    }

    /// The number of the next attempt, counted from one.
    pub fn attempt(&self) -> (attempt: usize)
        requires
            self@.attempt() <= usize::MAX,
        ensures
            attempt == self@.attempt(),
            attempt == self@.tries + 1,
    {
        self.tries + 1
    }

    /// How long the next attempt may take.
    pub fn attempt_timeout(&self) -> (timeout: Duration)
        ensures
            timeout == self@.attempt_timeout,
    {
        self.attempt_timeout
    }

    /// Takes in how the next attempt ended, and says what to do then.
    pub fn settle<T, E>(&mut self, outcome: Outcome<T, E>) -> (verdict: Verdict<T, E>)
        requires
            old(self)@.attempt() <= usize::MAX,
        ensures
            match old(self)@.result(outcome) {
                Some(res) => {
                    &&& verdict == Verdict::Return(res)
                    &&& final(self)@ == old(self)@
                },
                None => {
                    &&& verdict matches Verdict::Retry { backoff, cause } && {
                        &&& backoff@ == old(self)@.backoff()
                        &&& cause == old(self)@.failure(outcome)
                    }
                    &&& final(self)@ == old(self)@.next()
                },
            },
            match outcome {
                Outcome::Finished(Ok(value)) => verdict == Verdict::<T, E>::Return(Ok(value)),
                Outcome::Finished(Err(RetryError::Permanent(e))) => verdict == Verdict::<
                    T,
                    E,
                >::Return(Err(Failure::Error(e))),
                Outcome::Finished(Err(RetryError::Retryable(e))) => if old(self)@.tries < old(self)@.max_retries {
                    verdict is Retry && verdict->cause == Failure::Error(e)
                } else {
                    verdict == Verdict::<T, E>::Return(Err(Failure::Error(e)))
                },
                Outcome::TimedOut => ({
                    let cut_off = Failure::<E>::TimedOut {
                        attempt: (old(self)@.tries + 1) as usize,
                        after: old(self)@.attempt_timeout,
                    };
                    if old(self)@.tries < old(self)@.max_retries {
                        verdict is Retry && verdict->cause == cut_off
                    } else {
                        verdict == Verdict::<T, E>::Return(Err(cut_off))
                    }
                }),
            },
            verdict is Retry ==> final(self)@.tries == old(self)@.tries + 1,
            verdict is Return ==> final(self)@.tries == old(self)@.tries,
            final(self)@.max_retries == old(self)@.max_retries,
            final(self)@.attempt_timeout == old(self)@.attempt_timeout,
            final(self)@.backoff_base == old(self)@.backoff_base,
            verdict is Retry && old(self)@.tries + 1 < 0x1_0000_0000 && old(self)@.backoff_base * (
            old(self)@.tries + 1) <= MAX_NANOS ==> verdict->backoff@ == old(self)@.backoff_base * (
            old(self)@.tries + 1),
    {
        let attempt: usize = self.tries + 1;
        let cause = match outcome {
            Outcome::Finished(Ok(value)) => {
                return Verdict::Return(Ok(value));
            },
            Outcome::Finished(Err(RetryError::Permanent(e))) => {
                return Verdict::Return(Err(Failure::Error(e)));
            },
            Outcome::Finished(Err(RetryError::Retryable(e))) => Failure::Error(e),
            Outcome::TimedOut => Failure::TimedOut { attempt, after: self.attempt_timeout },
        };
        if self.tries >= self.max_retries {
            return Verdict::Return(Err(cause));
        }
        let backoff = self.backoff_base.saturating_mul(attempts_mod_u32(attempt));
        self.tries = self.tries + 1;
        Verdict::Retry { backoff, cause }
    }
}

/// The lower half of a number of attempts.
fn attempts_mod_u32(attempt: usize) -> (n: u32)
    ensures
        n == attempt as nat % 0x1_0000_0000,
{
    let wide: u64 = attempt as u64;
    assert(wide as u32 == wide % 0x1_0000_0000) by (bit_vector);
    #[verifier::truncate]
    (wide as u32)
}

/// Attempts are numbered from one, and each failed one moves the number on and nothing else.
pub proof fn law_attempts_are_numbered(
    s: RetryView,
    max_retries: nat,
    attempt_timeout: Duration,
    backoff_base: nat,
)
    ensures
        ({
            let first = RetryView::initial(max_retries, attempt_timeout, backoff_base);
            &&& first.tries == 0
            &&& first.attempt() == 1
            &&& first.max_retries == max_retries
            &&& first.attempt_timeout == attempt_timeout
            &&& first.backoff_base == backoff_base
        }),
        s.attempt() == s.tries + 1,
        s.next().tries == s.tries + 1,
        s.next().attempt() == s.attempt() + 1,
        s.next().max_retries == s.max_retries,
        s.next().attempt_timeout == s.attempt_timeout,
        s.next().backoff_base == s.backoff_base,
{
}

/// A success is returned as it is, at any attempt.
pub proof fn law_success_is_returned<T, E>(s: RetryView, value: T)
    ensures
        s.result(Outcome::<T, E>::Finished(Ok(value))) == Some(Ok::<T, Failure<E>>(value)),
{
}

/// A permanent error is returned as it is, at any attempt, however many retries are left.
pub proof fn law_permanent_error_is_returned<T, E>(s: RetryView, e: E)
    ensures
        s.result(Outcome::<T, E>::Finished(Err(RetryError::Permanent(e)))) == Some(
            Err::<T, Failure<E>>(Failure::Error(e)),
        ),
{
}

/// After a retryable error another attempt follows exactly while retries are left; once
/// there are none the error is the result.
pub proof fn law_retryable_error_is_retried<T, E>(s: RetryView, e: E)
    ensures
        s.tries < s.max_retries <==> s.result(
            Outcome::<T, E>::Finished(Err(RetryError::Retryable(e))),
        ) is None,
        s.tries >= s.max_retries ==> s.result(
            Outcome::<T, E>::Finished(Err(RetryError::Retryable(e))),
        ) == Some(Err::<T, Failure<E>>(Failure::Error(e))),
        s.failure(Outcome::<T, E>::Finished(Err(RetryError::Retryable(e)))) == Failure::Error(e),
{
}

/// After a timeout another attempt follows exactly while retries are left; once there are
/// none the timeout is the result, with the number of the attempt and its timeout.
pub proof fn law_timeout_is_retried<T, E>(s: RetryView)
    requires
        s.tries < usize::MAX,
    ensures
        s.tries < s.max_retries <==> s.result(Outcome::<T, E>::TimedOut) is None,
        s.tries >= s.max_retries ==> s.result(Outcome::<T, E>::TimedOut) == Some(
            Err::<T, Failure<E>>(s.failure(Outcome::<T, E>::TimedOut)),
        ),
        s.failure(Outcome::<T, E>::TimedOut) matches Failure::TimedOut { attempt, after }
            && attempt == s.tries + 1 && after == s.attempt_timeout,
{
}

/// Transient are the timeouts and the retryable errors, and they alone.
pub proof fn law_transient_outcomes<T, E>(value: T, e: E)
    ensures
        Outcome::<T, E>::TimedOut.is_transient(),
        Outcome::<T, E>::Finished(Err(RetryError::Retryable(e))).is_transient(),
        !Outcome::<T, E>::Finished(Err(RetryError::Permanent(e))).is_transient(),
        !Outcome::<T, E>::Finished(Ok(value)).is_transient(),
{
}

/// As many timeouts and retryable errors as there are retries do not keep a success from
/// being returned, with every attempt counted.
pub proof fn law_success_after_retries<T, E>(
    max_retries: nat,
    attempt_timeout: Duration,
    backoff_base: nat,
    outcomes: Seq<Outcome<T, E>>,
    n: nat,
    value: T,
)
    requires
        n <= max_retries,
        n < outcomes.len(),
        forall|i: int|
            0 <= i < n ==> (#[trigger] outcomes[i] == Outcome::<T, E>::TimedOut || outcomes[i]
                matches Outcome::Finished(Err(RetryError::Retryable(_)))),
        outcomes[n as int] == Outcome::<T, E>::Finished(Ok(value)),
    ensures
        RetryView::initial(max_retries, attempt_timeout, backoff_base).run(outcomes) == Some(
            ((n + 1) as nat, Ok::<T, Failure<E>>(value)),
        ),
{
    let s = RetryView::initial(max_retries, attempt_timeout, backoff_base);
    assert forall|i: int| 0 <= i < n implies (#[trigger] outcomes[i]).is_transient() by {
        assert(outcomes[i] == Outcome::<T, E>::TimedOut || (outcomes[i] matches Outcome::Finished(
            Err(RetryError::Retryable(_)),
        )));
    }
    law_first_final_outcome_decides(s, outcomes, n as int);
}

/// The backoff is the first one times the attempts made, of which only the remainder by 2^32
/// counts, and never more than the longest span.
pub proof fn law_backoff_counts_modulo(s: RetryView, wraps: nat, rest: nat)
    requires
        s.tries + 1 == wraps * 0x1_0000_0000 + rest,
        rest < 0x1_0000_0000,
    ensures
        s.backoff_base * rest <= MAX_NANOS ==> s.backoff() == s.backoff_base * rest,
        s.backoff_base * rest > MAX_NANOS ==> s.backoff() == MAX_NANOS,
{
    assert((s.tries + 1) % 0x1_0000_0000 == rest);
}

/// Retries are bounded: whatever happens, it is over after `max_retries` + 1 attempts, and
/// where all of them fail for now the last failure is the result.
pub proof fn law_retries_are_bounded<T, E>(s: RetryView, outcomes: Seq<Outcome<T, E>>)
    requires
        s.tries <= s.max_retries,
        outcomes.len() > s.max_retries - s.tries,
    ensures
        s.run(outcomes) matches Some((attempts, _)) && s.attempt() <= attempts <= s.max_retries
            + 1,
        (forall|i: int|
            0 <= i <= s.max_retries - s.tries ==> (#[trigger] outcomes[i]).is_transient())
            ==> s.run(outcomes) == Some(
            (
                (s.max_retries + 1) as nat,
                Err::<T, Failure<E>>(
                    (RetryView { tries: s.max_retries, ..s }).failure(
                        outcomes[s.max_retries - s.tries],
                    ),
                ),
            ),
        ),
    decreases s.max_retries - s.tries,
{
    if s.result(outcomes[0]) is None {
        let rest = outcomes.drop_first();
        law_retries_are_bounded(s.next(), rest);
        if forall|i: int|
            0 <= i <= s.max_retries - s.tries ==> (#[trigger] outcomes[i]).is_transient() {
            assert forall|i: int| 0 <= i <= s.max_retries - s.next().tries implies (
            #[trigger] rest[i]).is_transient() by {
                assert(rest[i] == outcomes[i + 1]);
            }
        }
    } else {
        assert(outcomes[0].is_transient() ==> s.tries == s.max_retries);
    }
}

/// Attempts end at once with the first success or permanent error, which is the result.
pub proof fn law_first_final_outcome_decides<T, E>(
    s: RetryView,
    outcomes: Seq<Outcome<T, E>>,
    n: int,
)
    requires
        0 <= n < outcomes.len(),
        s.tries + n <= s.max_retries,
        forall|i: int| 0 <= i < n ==> (#[trigger] outcomes[i]).is_transient(),
        !outcomes[n].is_transient(),
    ensures
        outcomes[n] matches Outcome::Finished(Ok(value)) ==> s.run(outcomes) == Some(
            ((s.attempt() + n) as nat, Ok::<T, Failure<E>>(value)),
        ),
        outcomes[n] matches Outcome::Finished(Err(RetryError::Permanent(e))) ==> s.run(outcomes)
            == Some(((s.attempt() + n) as nat, Err::<T, Failure<E>>(Failure::Error(e)))),
    decreases n,
{
    if n > 0 {
        assert(outcomes[0].is_transient());
        let rest = outcomes.drop_first();
        assert forall|i: int| 0 <= i < n - 1 implies (#[trigger] rest[i]).is_transient() by {
            assert(rest[i] == outcomes[i + 1]);
        }
        assert(rest[n - 1] == outcomes[n]);
        law_first_final_outcome_decides(s.next(), rest, n - 1);
    }
}

/// The backoff grows linearly with the attempts, up to the longest span, as long as their
/// number is below 2^32.
pub proof fn law_backoff_is_linear(s: RetryView)
    requires
        s.attempt() < 0x1_0000_0000,
    ensures
        s.backoff() == if s.attempt() * s.backoff_base <= MAX_NANOS {
            s.attempt() * s.backoff_base
        } else {
            MAX_NANOS as nat
        },
        s.next().attempt() < 0x1_0000_0000 ==> s.backoff() <= s.next().backoff(),
{
    assert(s.attempt() % 0x1_0000_0000 == s.attempt());
    assert(s.backoff_base * s.attempt() == s.attempt() * s.backoff_base) by (nonlinear_arith);
    if s.next().attempt() < 0x1_0000_0000 {
        assert(s.next().attempt() % 0x1_0000_0000 == s.next().attempt());
        assert(s.backoff_base * s.attempt() <= s.backoff_base * s.next().attempt())
            by (nonlinear_arith)
            requires
                s.attempt() <= s.next().attempt(),
        ;
    }
}

} // verus!
