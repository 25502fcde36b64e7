//! What holds of the idle monitor over whole histories of inputs.

use vstd::prelude::*;

use crate::monitor::{whole_secs, ActionView, InputView, MonitorView};
use crate::request_id::RequestId;
use crate::time::elapsed;

verus! {

impl MonitorView {
    /// The monitor after all of `inputs`, in turn.
    pub open spec fn run(self, inputs: Seq<InputView>) -> MonitorView
        decreases inputs.len(),
    {
        if inputs.len() == 0 {
            self
        } else {
            self.run(inputs.drop_last()).next(inputs.last())
        }
    }

    /// Whether each of `inputs` comes when the monitor is waiting for it.
    pub open spec fn accepts_all(self, inputs: Seq<InputView>) -> bool {
        forall|i: int| 0 <= i < inputs.len() ==> #[trigger] self.accepts_at(inputs, i)
    }

    /// Whether input `i` comes when the monitor is waiting for it.
    pub open spec fn accepts_at(self, inputs: Seq<InputView>, i: int) -> bool {
        self.run(inputs.take(i)).accepts(inputs[i])
    }

    /// Whether input `i` makes the monitor suspend the machine.
    pub open spec fn suspends_at(self, inputs: Seq<InputView>, i: int) -> bool {
        self.run(inputs.take(i)).suspends(inputs[i])
    }
}

/// Whether the times of `inputs` never go back, nor lie before `started_at`.
pub open spec fn in_order(started_at: nat, inputs: Seq<InputView>) -> bool {
    &&& forall|i: int|
        0 <= i < inputs.len() && !(inputs[i] is Shutdown) ==> started_at <= (
        #[trigger] inputs[i]).time()
    &&& forall|i: int, j: int|
        0 <= i < j < inputs.len() && !(inputs[i] is Shutdown) && !(inputs[j] is Shutdown) ==> (
        #[trigger] inputs[i]).time() <= (#[trigger] inputs[j]).time()
}

/// The best block that the last successful poll among `inputs` found.
pub open spec fn last_block(inputs: Seq<InputView>) -> Option<u64>
    decreases inputs.len(),
{
    if inputs.len() == 0 {
        None
    } else {
        match inputs.last() {
            InputView::Tick { best_block: Some(best), .. } => Some(best),
            _ => last_block(inputs.drop_last()),
        }
    }
}

/// Whether input `i` is activity: a new block, or, once a block is known, a failed poll or
/// the end of a suspension.
pub open spec fn restarts_at(inputs: Seq<InputView>, i: int) -> bool {
    inputs[i].restarts(last_block(inputs.take(i)))
}

/// When the last activity among `inputs` was.
pub open spec fn last_restart(inputs: Seq<InputView>) -> Option<nat>
    decreases inputs.len(),
{
    if inputs.len() == 0 {
        None
    } else if inputs.last().restarts(last_block(inputs.drop_last())) {
        Some(inputs.last().time())
    } else {
        last_restart(inputs.drop_last())
    }
}

/// The monitor knows its history: the block it holds is the last one that was polled, and
/// its deadline lies a full idle window after the last activity.
pub proof fn law_state_reflects_history(
    idle_window: nat,
    started_at: nat,
    inputs: Seq<InputView>,
)
    ensures
        ({
            let m = MonitorView::initial(idle_window, started_at).run(inputs);
            &&& m.started_at == started_at
            &&& m.scheduler.idle_window == idle_window
            &&& m.scheduler.well_formed()
            &&& m.scheduler.last_best_block == last_block(inputs)
            &&& m.scheduler.next_idle_at == match last_restart(inputs) {
                Some(t) => Some(t + idle_window),
                None => None,
            }
        }),
    decreases inputs.len(),
{
    if inputs.len() > 0 {
        law_state_reflects_history(idle_window, started_at, inputs.drop_last());
    }
}

/// A tick suspends the machine exactly when a block is known and a full idle window has
/// passed since the last activity.
pub proof fn law_suspends_exactly_when_idle(
    idle_window: nat,
    started_at: nat,
    inputs: Seq<InputView>,
    i: int,
)
    requires
        0 <= i < inputs.len(),
        inputs[i] is Tick,
        MonitorView::initial(idle_window, started_at).accepts_at(inputs, i),
    ensures
        MonitorView::initial(idle_window, started_at).suspends_at(inputs, i) <==> (last_restart(
            inputs.take(i + 1),
        ) matches Some(t) && inputs[i].time() >= t + idle_window),
{
    law_state_reflects_history(idle_window, started_at, inputs.take(i));
    law_state_reflects_history(idle_window, started_at, inputs.take(i + 1));
    assert(inputs.take(i + 1).drop_last() == inputs.take(i));
    assert(inputs.take(i + 1).last() == inputs[i]);
}

/// A suspension is preceded by a full idle window without activity.
pub proof fn law_idle_window_is_quiet(
    idle_window: nat,
    started_at: nat,
    inputs: Seq<InputView>,
    i: int,
    j: int,
)
    requires
        in_order(started_at, inputs),
        MonitorView::initial(idle_window, started_at).accepts_all(inputs),
        0 <= i <= j < inputs.len(),
        restarts_at(inputs, i),
        MonitorView::initial(idle_window, started_at).suspends_at(inputs, j),
    ensures
        inputs[i].time() + idle_window <= inputs[j].time(),
{
    let m = MonitorView::initial(idle_window, started_at);
    assert(m.accepts_at(inputs, j));
    law_suspends_exactly_when_idle(idle_window, started_at, inputs, j);
    lemma_last_restart_is_latest(started_at, inputs, i, j + 1);
}

/// Between two suspensions the machine resumes, and the later one comes at least an idle
/// window after that, all the more after the earlier one.
pub proof fn law_suspensions_are_apart(
    idle_window: nat,
    started_at: nat,
    inputs: Seq<InputView>,
    i: int,
    j: int,
)
    requires
        in_order(started_at, inputs),
        MonitorView::initial(idle_window, started_at).accepts_all(inputs),
        0 <= i < j < inputs.len(),
        MonitorView::initial(idle_window, started_at).suspends_at(inputs, i),
        MonitorView::initial(idle_window, started_at).suspends_at(inputs, j),
    ensures
        i + 1 < j,
        inputs[i + 1] is SuspendFinished,
        inputs[i + 1].time() + idle_window <= inputs[j].time(),
        inputs[i].time() + idle_window <= inputs[j].time(),
{
    let m = MonitorView::initial(idle_window, started_at);
    assert(m.accepts_at(inputs, j));
    lemma_suspension_ends(idle_window, started_at, inputs, i, j);
    law_idle_window_is_quiet(idle_window, started_at, inputs, i + 1, j);
}

/// The monitor never stops by itself: it has stopped exactly if it was shut down, and only
/// a shutdown makes it say so.
pub proof fn law_only_shutdown_stops(
    idle_window: nat,
    started_at: nat,
    inputs: Seq<InputView>,
    input: InputView,
    request_id: RequestId,
)
    ensures
        MonitorView::initial(idle_window, started_at).run(inputs).stopped <==> inputs.contains(
            InputView::Shutdown,
        ),
        MonitorView::initial(idle_window, started_at).run(inputs).action(input, request_id)
            == ActionView::Stop <==> input == InputView::Shutdown,
    decreases inputs.len(),
{
    if inputs.len() > 0 {
        law_only_shutdown_stops(idle_window, started_at, inputs.drop_last(), input, request_id);
        assert(inputs == inputs.drop_last().push(inputs.last()));
        if inputs.last() == InputView::Shutdown {
            assert(inputs[inputs.len() - 1] == InputView::Shutdown);
        }
        if inputs.contains(InputView::Shutdown) && inputs.last() != InputView::Shutdown {
            let i = inputs.index_of(InputView::Shutdown);
            assert(inputs.drop_last()[i] == InputView::Shutdown);
        }
        if inputs.drop_last().contains(InputView::Shutdown) {
            let i = inputs.drop_last().index_of(InputView::Shutdown);
            assert(inputs[i] == InputView::Shutdown);
        }
    }
}

/// After a suspension the cycle begins anew, whether or not the suspension succeeded: with
/// the block unchanged, the next tick suspends again exactly when a further full idle
/// window has passed.
pub proof fn law_cycle_begins_anew(
    m: MonitorView,
    tick: InputView,
    ended: nat,
    succeeded: bool,
    now: nat,
)
    requires
        m.accepts(tick),
        m.suspends(tick),
    ensures
        ({
            let suspending = m.next(tick);
            let resumed = suspending.next(InputView::SuspendFinished { now: ended, succeeded });
            let next_tick = InputView::Tick { now, best_block: suspending.scheduler.last_best_block };
            &&& suspending.accepts(InputView::SuspendFinished { now: ended, succeeded })
            &&& resumed.accepts(next_tick)
            &&& resumed.suspends(next_tick) <==> now >= ended + m.scheduler.idle_window
            &&& resumed == suspending.next(
                InputView::SuspendFinished { now: ended, succeeded: !succeeded },
            )
        }),
{
}

/// The event of a suspension names the block that stayed the same, and tells of at least
/// an idle window between the two times it gives.
pub proof fn law_event_tells_idle_window(
    idle_window: nat,
    started_at: nat,
    inputs: Seq<InputView>,
    i: int,
    request_id: RequestId,
)
    requires
        in_order(started_at, inputs),
        MonitorView::initial(idle_window, started_at).accepts_all(inputs),
        0 <= i < inputs.len(),
        MonitorView::initial(idle_window, started_at).suspends_at(inputs, i),
    ensures
        ({
            let m = MonitorView::initial(idle_window, started_at);
            let action = m.run(inputs.take(i)).action(inputs[i], request_id);
            &&& action matches ActionView::Suspend(event) && {
                &&& event.request_id == request_id
                &&& Some(event.last_best_block_number) == last_block(inputs.take(i + 1))
                &&& event.idle_timer == idle_window
                &&& event.triggered_elapsed_secs == whole_secs(
                    (inputs[i].time() - started_at) as nat,
                )
                &&& event.last_seen_elapsed_secs + whole_secs(idle_window)
                    <= event.triggered_elapsed_secs
            }
        }),
{
    let m = MonitorView::initial(idle_window, started_at);
    let before = inputs.take(i);
    let upto = inputs.take(i + 1);
    assert(upto.drop_last() == before);
    assert(upto.last() == inputs[i]);
    assert(m.accepts_at(inputs, i));
    law_state_reflects_history(idle_window, started_at, upto);
    law_suspends_exactly_when_idle(idle_window, started_at, inputs, i);
    lemma_last_seen_before_last_restart(idle_window, started_at, upto);
    assert(inputs[i].time() >= started_at);
    let seen = m.run(upto).scheduler.last_seen_at->0;
    assert(elapsed(started_at, seen) + idle_window <= elapsed(started_at, inputs[i].time()));
    lemma_whole_secs_add(
        elapsed(started_at, seen),
        idle_window,
        elapsed(started_at, inputs[i].time()),
    );
}

/// No activity among the first `n` inputs is later than the last of it.
proof fn lemma_last_restart_is_latest(
    started_at: nat,
    inputs: Seq<InputView>,
    i: int,
    n: int,
)
    requires
        in_order(started_at, inputs),
        0 <= i < n <= inputs.len(),
        restarts_at(inputs, i),
    ensures
        last_restart(inputs.take(n)) matches Some(t) && inputs[i].time() <= t,
    decreases n,
{
    let upto = inputs.take(n);
    assert(upto.drop_last() == inputs.take(n - 1));
    assert(upto.last() == inputs[n - 1]);
    if i < n - 1 {
        lemma_last_restart_is_latest(started_at, inputs, i, n - 1);
    }
}

/// What follows a suspension, before another, is its end, which is activity.
proof fn lemma_suspension_ends(
    idle_window: nat,
    started_at: nat,
    inputs: Seq<InputView>,
    i: int,
    j: int,
)
    requires
        in_order(started_at, inputs),
        MonitorView::initial(idle_window, started_at).accepts_all(inputs),
        0 <= i < j < inputs.len(),
        MonitorView::initial(idle_window, started_at).suspends_at(inputs, i),
        MonitorView::initial(idle_window, started_at).suspends_at(inputs, j),
    ensures
        i + 1 < j,
        inputs[i + 1] is SuspendFinished,
        restarts_at(inputs, i + 1),
        inputs[i].time() <= inputs[i + 1].time(),
{
    let m = MonitorView::initial(idle_window, started_at);
    assert(m.accepts_at(inputs, i));
    assert(m.accepts_at(inputs, j));
    assert(m.accepts_at(inputs, i + 1));
    let k = i + 1;
    assert(inputs.take(k).drop_last() == inputs.take(i));
    assert(inputs.take(k).last() == inputs[i]);
    law_state_reflects_history(idle_window, started_at, inputs.take(k));
    assert(m.run(inputs.take(k)).scheduler.suspending);
    if inputs[k] is Shutdown {
        assert(m.accepts_at(inputs, k + 1));
        assert(inputs.take(k + 1).drop_last() == inputs.take(k));
        assert(inputs.take(k + 1).last() == inputs[k]);
    }
}

/// The block was last seen afresh no later than the last activity.
proof fn lemma_last_seen_before_last_restart(
    idle_window: nat,
    started_at: nat,
    inputs: Seq<InputView>,
)
    requires
        in_order(started_at, inputs),
    ensures
        ({
            let m = MonitorView::initial(idle_window, started_at).run(inputs);
            m.scheduler.last_seen_at matches Some(seen) ==> last_restart(inputs) matches Some(t)
                && started_at <= seen <= t
        }),
    decreases inputs.len(),
{
    if inputs.len() > 0 {
        let prefix = inputs.drop_last();
        lemma_last_seen_before_last_restart(idle_window, started_at, prefix);
        law_state_reflects_history(idle_window, started_at, prefix);
        law_state_reflects_history(idle_window, started_at, inputs);
        if !(inputs.last() is Shutdown) {
            assert(started_at <= inputs[inputs.len() - 1].time());
            lemma_last_restart_was_input(started_at, inputs, inputs.len() - 1);
        }
    }
}

/// The last activity among the first `n` inputs is no later than any input after them.
proof fn lemma_last_restart_was_input(started_at: nat, inputs: Seq<InputView>, n: int)
    requires
        in_order(started_at, inputs),
        0 <= n < inputs.len(),
        !(inputs.last() is Shutdown),
    ensures
        last_restart(inputs.take(n)) matches Some(t) ==> t <= inputs.last().time(),
    decreases n,
{
    if n > 0 {
        assert(inputs.take(n).drop_last() == inputs.take(n - 1));
        assert(inputs.take(n).last() == inputs[n - 1]);
        assert(inputs.last() == inputs[inputs.len() - 1]);
        lemma_last_restart_was_input(started_at, inputs, n - 1);
    }
}

proof fn lemma_whole_secs_add(a: nat, b: nat, c: nat)
    requires
        a + b <= c,
    ensures
        whole_secs(a) + whole_secs(b) <= whole_secs(c),
{
}

} // verus!
