//! The idle timer: which block was seen last, and when the machine counts as idle.

use vstd::prelude::*;

use crate::time::{Duration, Instant, MAX_NANOS};

verus! {

/// What an [`IdleSchedulerState`] holds, with all times in nanoseconds.
pub struct SchedulerView {
    /// How long the best block must stay the same before the machine is idle.
    pub idle_window: nat,
    /// The best block that was observed last.
    pub last_best_block: Option<u64>,
    /// When that block was first observed, or when the machine last resumed on it.
    pub last_seen_at: Option<nat>,
    /// From when on the machine counts as idle.
    pub next_idle_at: Option<nat>,
    /// Whether a suspension is under way.
    pub suspending: bool,
}

impl SchedulerView {
    /// The state before any block was observed.
    pub open spec fn initial(idle_window: nat) -> SchedulerView {
        SchedulerView {
            idle_window,
            last_best_block: None,
            last_seen_at: None,
            next_idle_at: None,
            suspending: false,
        }
    }

    /// Times are known exactly once a block was observed.
    pub open spec fn well_formed(self) -> bool {
        &&& self.last_seen_at is Some == self.last_best_block is Some
        &&& self.next_idle_at is Some == self.last_best_block is Some
    }

    /// Whether `best` is another block than the one observed last.
    pub open spec fn is_news(self, best: u64) -> bool {
        self.last_best_block != Some(best)
    }

    /// The state after the best block was found to be `best`.
    pub open spec fn observe(self, best: u64, now: nat) -> SchedulerView {
        if self.is_news(best) {
            SchedulerView {
                last_best_block: Some(best),
                last_seen_at: Some(now),
                next_idle_at: Some(now + self.idle_window),
                ..self
            }
        } else {
            self
        }
    }

    /// The state after the best block could not be found out.
    pub open spec fn postpone(self, now: nat) -> SchedulerView {
        if self.last_best_block is Some {
            SchedulerView { next_idle_at: Some(now + self.idle_window), ..self }
        } else {
            self
        }
    }

    /// Whether a suspension is to begin.
    pub open spec fn due(self, now: nat) -> bool {
        &&& !self.suspending
        &&& self.last_best_block is Some
        &&& self.next_idle_at matches Some(deadline) && now >= deadline
    }

    /// The state once a suspension has begun.
    pub open spec fn trigger(self) -> SchedulerView {
        SchedulerView { suspending: true, ..self }
    }

    /// The state after a suspension ended, however it ended.
    pub open spec fn reset_after_suspend_attempt(self, now: nat) -> SchedulerView {
        if self.last_best_block is Some {
            SchedulerView {
                last_seen_at: Some(now),
                next_idle_at: Some(now + self.idle_window),
                suspending: false,
                ..self
            }
        } else {
            SchedulerView { suspending: false, ..self }
        }
    }
}

/// The idle timer of one monitored machine.
#[derive(Debug)]
pub struct IdleSchedulerState {
    idle_window: Duration,
    last_best_block: Option<u64>,
    last_seen_at: Option<Instant>,
    next_idle_at: Option<Instant>,
    suspending: bool,
}

/// The time in nanoseconds of `at`, where there is one.
pub open spec fn nanos_at(at: Option<Instant>) -> Option<nat> {
    match at {
        Some(t) => Some(t@),
        None => None,
    }
}

impl View for IdleSchedulerState {
    type V = SchedulerView;

    closed spec fn view(&self) -> SchedulerView {
        SchedulerView {
            idle_window: self.idle_window@,
            last_best_block: self.last_best_block,
            last_seen_at: nanos_at(self.last_seen_at),
            next_idle_at: nanos_at(self.next_idle_at),
            suspending: self.suspending,
        }
    }
}

impl Clone for IdleSchedulerState {
    fn clone(&self) -> (s: IdleSchedulerState)
        ensures
            s == *self,
    {
        proof {
            use_type_invariant(self);
        }
        IdleSchedulerState {
            idle_window: self.idle_window,
            last_best_block: self.last_best_block,
            last_seen_at: self.last_seen_at,
            next_idle_at: self.next_idle_at,
            suspending: self.suspending,
        }
    }
}

impl IdleSchedulerState {
    #[verifier::type_invariant]
    pub open spec fn well_formed(self) -> bool {
        self@.well_formed()
    }

    /// An idle timer that has seen no block yet.
    pub fn new(idle_window: Duration) -> (s: IdleSchedulerState)
        ensures
            s@ == SchedulerView::initial(idle_window@),
            s@.idle_window == idle_window@,
            s@.last_best_block is None,
            s@.last_seen_at is None,
            s@.next_idle_at is None,
            !s@.suspending,
    {
        IdleSchedulerState {
            idle_window,
            last_best_block: None,
            last_seen_at: None,
            next_idle_at: None,
            suspending: false,
        }
    }

    /// Notes that the best block is `best` at `now`; a new block restarts the timer.
    ///
    /// Returns whether the timer was restarted.
    pub fn observe_best_block(&mut self, best: u64, now: Instant) -> (restarted: bool)
        requires
            old(self)@.is_news(best) ==> now@ + old(self)@.idle_window <= MAX_NANOS,
        ensures
            restarted == old(self)@.is_news(best),
            final(self)@ == old(self)@.observe(best, now@),
            restarted <==> old(self)@.last_best_block != Some(best),
            final(self)@.last_best_block == Some(best),
            final(self)@.idle_window == old(self)@.idle_window,
            final(self)@.suspending == old(self)@.suspending,
            restarted ==> final(self)@.last_seen_at == Some(now@) && final(self)@.next_idle_at
                == Some(now@ + old(self)@.idle_window),
            !restarted ==> final(self)@.last_seen_at == old(self)@.last_seen_at && final(self)@.next_idle_at == old(self)@.next_idle_at,
    {
        let unchanged: bool = match self.last_best_block {
            None => false,
            Some(prev) => prev == best,
        };
        if unchanged {
            return false;
        }
        *self = IdleSchedulerState {
            idle_window: self.idle_window,
            last_best_block: Some(best),
            last_seen_at: Some(now),
            next_idle_at: Some(now + self.idle_window),
            suspending: self.suspending,
        };
        true
    }

    /// Restarts the timer at `now`, once a block was observed.
    pub fn postpone(&mut self, now: Instant)
        requires
            old(self)@.last_best_block is Some ==> now@ + old(self)@.idle_window <= MAX_NANOS,
        ensures
            final(self)@ == old(self)@.postpone(now@),
            final(self)@.last_best_block == old(self)@.last_best_block,
            final(self)@.last_seen_at == old(self)@.last_seen_at,
            final(self)@.idle_window == old(self)@.idle_window,
            final(self)@.suspending == old(self)@.suspending,
            old(self)@.last_best_block is Some ==> final(self)@.next_idle_at == Some(
                now@ + old(self)@.idle_window,
            ),
            old(self)@.last_best_block is None ==> final(self)@.next_idle_at == old(self)@.next_idle_at,
    {
        proof {
            use_type_invariant(&*self);
        }
        if self.last_best_block.is_some() {
            self.next_idle_at = Some(now + self.idle_window);
        }
    }

    /// Whether a suspension is to begin at `now`.
    pub fn due(&self, now: Instant) -> (due: bool)
        ensures
            due == self@.due(now@),
            due <==> !self@.suspending && self@.last_best_block is Some
                && self@.next_idle_at is Some && now@ >= self@.next_idle_at->0,
    {
        !self.suspending && self.last_best_block.is_some() && match self.next_idle_at {
            Some(deadline) => now.has_reached(deadline),
            None => false,
        }
    }

    /// Notes that a suspension begins.
    pub fn trigger(&mut self)
        ensures
            final(self)@ == old(self)@.trigger(),
            final(self)@.suspending,
            final(self)@.last_best_block == old(self)@.last_best_block,
            final(self)@.last_seen_at == old(self)@.last_seen_at,
            final(self)@.next_idle_at == old(self)@.next_idle_at,
            final(self)@.idle_window == old(self)@.idle_window,
    {
        proof {
            use_type_invariant(&*self);
        }
        self.suspending = true;
    }

    /// Notes that a suspension ended at `now`, and restarts the timer.
    pub fn reset_after_suspend_attempt(&mut self, now: Instant)
        requires
            old(self)@.last_best_block is Some ==> now@ + old(self)@.idle_window <= MAX_NANOS,
        ensures
            final(self)@ == old(self)@.reset_after_suspend_attempt(now@),
            !final(self)@.suspending,
            final(self)@.last_best_block == old(self)@.last_best_block,
            final(self)@.idle_window == old(self)@.idle_window,
            old(self)@.last_best_block is Some ==> final(self)@.last_seen_at == Some(now@)
                && final(self)@.next_idle_at == Some(now@ + old(self)@.idle_window),
            old(self)@.last_best_block is None ==> final(self)@.last_seen_at == old(self)@.last_seen_at && final(self)@.next_idle_at == old(self)@.next_idle_at,
    {
        proof {
            use_type_invariant(&*self);
        }
        self.suspending = false;
        if self.last_best_block.is_some() {
            *self = IdleSchedulerState {
                idle_window: self.idle_window,
                last_best_block: self.last_best_block,
                last_seen_at: Some(now),
                next_idle_at: Some(now + self.idle_window),
                suspending: false,
            };
        }
    }

    /// The best block that was observed last.
    pub fn last_best_block(&self) -> (best: Option<u64>)
        ensures
            best == self@.last_best_block,
    {
        self.last_best_block
    }

    /// When that block was first observed, or when the machine last resumed on it.
    pub fn last_seen_at(&self) -> (at: Option<Instant>)
        ensures
            nanos_at(at) == self@.last_seen_at,
            at is Some <==> self@.last_seen_at is Some,
            at matches Some(t) ==> self@.last_seen_at == Some(t@),
    {
        self.last_seen_at
    }

    /// How long the best block must stay the same before the machine is idle.
    pub fn idle_window(&self) -> (window: Duration)
        ensures
            window@ == self@.idle_window,
    {
        self.idle_window
    }

    /// Whether a suspension is under way.
    pub fn is_suspending(&self) -> (suspending: bool)
        ensures
            suspending == self@.suspending,
    {
        self.suspending
    }
}

/// A timer starts without a block, without times and without a suspension.
pub proof fn law_new_timer(idle_window: nat)
    ensures
        SchedulerView::initial(idle_window).idle_window == idle_window,
        SchedulerView::initial(idle_window).last_best_block is None,
        SchedulerView::initial(idle_window).last_seen_at is None,
        SchedulerView::initial(idle_window).next_idle_at is None,
        !SchedulerView::initial(idle_window).suspending,
{
}

/// Of two blocks observed one after the other, the second restarts the timer exactly if its
/// number is another one, whether higher or lower, by one or by many: then the deadline
/// lies a full idle window after it, else it stays where the first left it.
pub proof fn law_another_block_restarts_timer(
    s: SchedulerView,
    prev: u64,
    at: nat,
    best: u64,
    now: nat,
)
    ensures
        ({
            let first = s.observe(prev, at);
            let second = first.observe(best, now);
            &&& first.last_best_block == Some(prev)
            &&& second.last_best_block == Some(best)
            &&& first.is_news(best) <==> prev != best
            &&& prev != best ==> second.next_idle_at == Some(now + s.idle_window)
            &&& prev != best ==> second.last_seen_at == Some(now)
            &&& prev == best ==> second.next_idle_at == first.next_idle_at
            &&& prev == best ==> second.last_seen_at == first.last_seen_at
            &&& second.suspending == s.suspending
            &&& second.idle_window == s.idle_window
        }),
{
}

/// The first block ever observed starts the timer, whatever its number.
pub proof fn law_first_block_starts_timer(idle_window: nat, best: u64, now: nat)
    ensures
        ({
            let s = SchedulerView::initial(idle_window);
            &&& s.is_news(best)
            &&& s.observe(best, now).last_best_block == Some(best)
            &&& s.observe(best, now).last_seen_at == Some(now)
            &&& s.observe(best, now).next_idle_at == Some(now + idle_window)
        }),
{
}

/// A failed poll touches the deadline only, and only once a block is known.
pub proof fn law_postpone_moves_deadline_only(s: SchedulerView, now: nat)
    ensures
        s.postpone(now).last_best_block == s.last_best_block,
        s.postpone(now).last_seen_at == s.last_seen_at,
        s.postpone(now).idle_window == s.idle_window,
        s.postpone(now).suspending == s.suspending,
        s.last_best_block is Some ==> s.postpone(now).next_idle_at == Some(now + s.idle_window),
        s.last_best_block is None ==> s.postpone(now).next_idle_at == s.next_idle_at,
{
}

/// A trigger marks the suspension and touches nothing else.
pub proof fn law_trigger_marks_suspension_only(s: SchedulerView)
    ensures
        s.trigger().suspending,
        s.trigger().last_best_block == s.last_best_block,
        s.trigger().last_seen_at == s.last_seen_at,
        s.trigger().next_idle_at == s.next_idle_at,
        s.trigger().idle_window == s.idle_window,
{
}

/// A suspension is due exactly when none is under way, a block is known and the deadline
/// has come.
pub proof fn law_due_at_deadline(s: SchedulerView, deadline: nat, now: nat)
    requires
        s.next_idle_at == Some(deadline),
    ensures
        s.due(now) <==> !s.suspending && s.last_best_block is Some && deadline <= now,
{
}

/// A reset ends the suspension and keeps the block; without a block there is no timer to
/// restart.
pub proof fn law_reset_ends_suspension(s: SchedulerView, now: nat)
    ensures
        !s.reset_after_suspend_attempt(now).suspending,
        s.reset_after_suspend_attempt(now).last_best_block == s.last_best_block,
        s.reset_after_suspend_attempt(now).idle_window == s.idle_window,
        s.last_best_block is None ==> s.reset_after_suspend_attempt(now).next_idle_at
            == s.next_idle_at && s.reset_after_suspend_attempt(now).last_seen_at == s.last_seen_at,
        s.last_best_block is Some ==> s.reset_after_suspend_attempt(now).next_idle_at == Some(
            now + s.idle_window,
        ) && s.reset_after_suspend_attempt(now).last_seen_at == Some(now),
{
}

/// A new block restarts the timer: from then on a suspension is due exactly when a full
/// idle window has passed since the block was observed.
pub proof fn law_new_block_restarts_timer(s: SchedulerView, best: u64, now: nat, later: nat)
    requires
        s.is_news(best),
        !s.suspending,
    ensures
        s.observe(best, now).due(later) <==> later >= now + s.idle_window,
{
}

/// Seeing the same block again changes nothing, however often it happens.
pub proof fn law_same_block_keeps_timer(s: SchedulerView, best: u64, now: nat, again: nat)
    ensures
        s.observe(best, now).observe(best, again) == s.observe(best, now),
{
}

/// A failed poll postpones a suspension by a full idle window.
pub proof fn law_failed_poll_postpones(s: SchedulerView, now: nat, later: nat)
    requires
        s.last_best_block is Some,
        !s.suspending,
    ensures
        s.postpone(now).due(later) <==> later >= now + s.idle_window,
{
}

/// Before any block was observed nothing is due, and failed polls do not change that.
pub proof fn law_nothing_due_before_first_block(idle_window: nat, now: nat, later: nat)
    ensures
        !SchedulerView::initial(idle_window).due(later),
        SchedulerView::initial(idle_window).postpone(now) == SchedulerView::initial(idle_window),
{
}

/// While a suspension is under way no other is due, whatever is observed meanwhile.
pub proof fn law_no_second_suspension_meanwhile(
    s: SchedulerView,
    best: u64,
    now: nat,
    later: nat,
)
    ensures
        !s.trigger().due(later),
        !s.trigger().observe(best, now).due(later),
        !s.trigger().postpone(now).due(later),
{
}

/// Once a suspension has ended a new one is due exactly when a further full idle window
/// has passed.
pub proof fn law_new_cycle_after_suspension(s: SchedulerView, now: nat, later: nat)
    requires
        s.last_best_block is Some,
    ensures
        s.trigger().reset_after_suspend_attempt(now).due(later) <==> later >= now
            + s.idle_window,
{
}

/// The end of a suspension begins a fresh cycle: whatever the state was, it is that of a new
/// timer which has just observed the block, so that the same block seen again is no news
/// and leaves the deadline a full window after the end.
pub proof fn law_reset_begins_fresh_cycle(s: SchedulerView, best: u64, now: nat, again: nat)
    requires
        s.last_best_block == Some(best),
    ensures
        s.reset_after_suspend_attempt(now) == SchedulerView::initial(s.idle_window).observe(
            best,
            now,
        ),
        !s.reset_after_suspend_attempt(now).is_news(best),
        s.reset_after_suspend_attempt(now).observe(best, again).next_idle_at == Some(
            now + s.idle_window,
        ),
{
}

/// What is due stays due until something is observed.
pub proof fn law_due_stays_due(s: SchedulerView, now: nat, later: nat)
    requires
        s.due(now),
        now <= later,
    ensures
        s.due(later),
{
}

/// Every operation keeps the state well formed and the idle window as it was.
pub proof fn law_operations_preserve_well_formedness(s: SchedulerView, best: u64, now: nat)
    requires
        s.well_formed(),
    ensures
        SchedulerView::initial(s.idle_window).well_formed(),
        s.observe(best, now).well_formed(),
        s.postpone(now).well_formed(),
        s.trigger().well_formed(),
        s.reset_after_suspend_attempt(now).well_formed(),
        s.observe(best, now).idle_window == s.idle_window,
        s.postpone(now).idle_window == s.idle_window,
        s.trigger().idle_window == s.idle_window,
        s.reset_after_suspend_attempt(now).idle_window == s.idle_window,
{
}

/// One operation on the idle timer, with its time in nanoseconds.
pub enum Operation {
    Observe { best: u64, now: nat },
    Postpone { now: nat },
    Trigger,
    Reset { now: nat },
}

impl Operation {
    /// When the operation takes place, where it has a time.
    pub open spec fn time(self) -> Option<nat> {
        match self {
            Operation::Observe { now, .. } => Some(now),
            Operation::Postpone { now } => Some(now),
            Operation::Trigger => None,
            Operation::Reset { now } => Some(now),
        }
    }
}

/// Whether the times of `ops` never go back.
pub open spec fn never_goes_back(ops: Seq<Operation>) -> bool {
    forall|i: int, j: int|
        0 <= i < j < ops.len() ==> ((#[trigger] ops[i]).time() matches Some(t) ==> (
        #[trigger] ops[j]).time() matches Some(u) ==> t <= u)
}

impl SchedulerView {
    /// The state after `op`.
    pub open spec fn apply(self, op: Operation) -> SchedulerView {
        match op {
            Operation::Observe { best, now } => self.observe(best, now),
            Operation::Postpone { now } => self.postpone(now),
            Operation::Trigger => self.trigger(),
            Operation::Reset { now } => self.reset_after_suspend_attempt(now),
        }
    }

    /// The state after all of `ops`, in turn.
    pub open spec fn apply_all(self, ops: Seq<Operation>) -> SchedulerView
        decreases ops.len(),
    {
        if ops.len() == 0 {
            self
        } else {
            self.apply_all(ops.drop_last()).apply(ops.last())
        }
    }

    /// Whether the deadline, where there is one, lies at least an idle window after the
    /// block was last seen afresh.
    pub open spec fn deadline_after_window(self) -> bool {
        self.last_seen_at matches Some(seen) ==> self.next_idle_at matches Some(deadline) && seen
            + self.idle_window <= deadline
    }
}

/// In every state that a new timer can come to, the block and both times are known together
/// or not at all, the window is that of the start, and the deadline lies at least a window
/// after the block was last seen afresh.
pub proof fn law_reachable_states(idle_window: nat, ops: Seq<Operation>)
    requires
        never_goes_back(ops),
    ensures
        SchedulerView::initial(idle_window).apply_all(ops).well_formed(),
        SchedulerView::initial(idle_window).apply_all(ops).idle_window == idle_window,
        SchedulerView::initial(idle_window).apply_all(ops).deadline_after_window(),
    decreases ops.len(),
{
    if ops.len() > 0 {
        let prefix = ops.drop_last();
        assert(ops.take(ops.len() - 1) == prefix);
        law_reachable_states(idle_window, prefix);
        lemma_times_are_past(idle_window, ops, ops.len() - 1, ops.len() - 1);
    }
}

/// The deadline never moves earlier, nor is it lost once there is one.
pub proof fn law_deadline_never_moves_earlier(
    idle_window: nat,
    ops: Seq<Operation>,
    i: int,
    j: int,
)
    requires
        never_goes_back(ops),
        0 <= i <= j <= ops.len(),
    ensures
        SchedulerView::initial(idle_window).apply_all(ops.take(i)).next_idle_at matches Some(
            before,
        ) ==> SchedulerView::initial(idle_window).apply_all(ops.take(j)).next_idle_at matches Some(
            after,
        ) && before <= after,
    decreases j,
{
    if i < j {
        law_deadline_never_moves_earlier(idle_window, ops, i, j - 1);
        lemma_times_are_past(idle_window, ops, j - 1, j - 1);
        assert(ops.take(j).drop_last() == ops.take(j - 1));
        assert(ops.take(j).last() == ops[j - 1]);
    }
}

/// After the first `n` operations no time in the state is later than what operation `k`,
/// which comes after them, can give.
proof fn lemma_times_are_past(idle_window: nat, ops: Seq<Operation>, n: int, k: int)
    requires
        never_goes_back(ops),
        0 <= n <= k < ops.len(),
    ensures
        ({
            let s = SchedulerView::initial(idle_window).apply_all(ops.take(n));
            &&& s.idle_window == idle_window
            &&& s.well_formed()
            &&& ops[k].time() matches Some(now) ==> {
                &&& s.last_seen_at matches Some(seen) ==> seen <= now
                &&& s.next_idle_at matches Some(deadline) ==> deadline <= now + idle_window
            }
        }),
    decreases n,
{
    if n > 0 {
        lemma_times_are_past(idle_window, ops, n - 1, k);
        assert(ops.take(n).drop_last() == ops.take(n - 1));
        assert(ops.take(n).last() == ops[n - 1]);
    }
}

} // verus!
