//! The idle monitor as a state machine.
//!
//! The caller waits for what happens (a tick with a freshly polled best block, the end of
//! a suspension, a shutdown), hands it to [`Monitor::step`] and does what comes back.

use vstd::prelude::*;

use crate::config::IdleConfig;
use crate::request_id::{is_random_uuid, RequestId};
use crate::scheduler::{IdleSchedulerState, SchedulerView};
use crate::time::{elapsed, Duration, Instant, MAX_NANOS, NANOS_PER_SEC};

verus! {

/// How often the best block is polled, in seconds.
pub const POLL_INTERVAL_SECS: u64 = 1;

/// Describes an idle machine that is to be suspended.
#[derive(Debug, Clone, Copy, PartialEq, Eq, Structural)]
pub struct IdleEvent {
    /// Identifies the suspension request.
    pub request_id: RequestId,
    /// The best block, unchanged during the idle window.
    pub last_best_block_number: u64,
    /// How long the best block had to stay the same.
    pub idle_timer: Duration,
    /// Seconds from the start of the monitor until the block was last seen afresh.
    pub last_seen_elapsed_secs: u64,
    /// Seconds from the start of the monitor until the suspension was triggered.
    pub triggered_elapsed_secs: u64,
}

/// What an [`IdleEvent`] says, with the idle timer in nanoseconds.
pub struct IdleEventView {
    pub request_id: RequestId,
    pub last_best_block_number: u64,
    pub idle_timer: nat,
    pub last_seen_elapsed_secs: nat,
    pub triggered_elapsed_secs: nat,
}

impl View for IdleEvent {
    type V = IdleEventView;

    open spec fn view(&self) -> IdleEventView {
        IdleEventView {
            request_id: self.request_id,
            last_best_block_number: self.last_best_block_number,
            idle_timer: self.idle_timer@,
            last_seen_elapsed_secs: self.last_seen_elapsed_secs as nat,
            triggered_elapsed_secs: self.triggered_elapsed_secs as nat,
        }
    }
}

/// What the monitor has to react to.
#[derive(Debug, Clone, Copy, PartialEq, Eq, Structural)]
pub enum MonitorInput {
    /// The monitor is to end.
    Shutdown,
    /// It is time to look at the best block; `None` where it could not be found out.
    Tick { now: Instant, best_block: Option<u64> },
    /// The suspension that was asked for has ended.
    SuspendFinished { now: Instant, succeeded: bool },
}

/// A [`MonitorInput`] with its time in nanoseconds.
pub enum InputView {
    Shutdown,
    Tick { now: nat, best_block: Option<u64> },
    SuspendFinished { now: nat, succeeded: bool },
}

impl View for MonitorInput {
    type V = InputView;

    open spec fn view(&self) -> InputView {
        match *self {
            MonitorInput::Shutdown => InputView::Shutdown,
            MonitorInput::Tick { now, best_block } => InputView::Tick { now: now@, best_block },
            MonitorInput::SuspendFinished { now, succeeded } => InputView::SuspendFinished {
                now: now@,
                succeeded,
            },
        }
    }
}

impl InputView {
    /// When the input came; a shutdown has no time of its own.
    pub open spec fn time(self) -> nat {
        match self {
            InputView::Shutdown => 0,
            InputView::Tick { now, .. } => now,
            InputView::SuspendFinished { now, .. } => now,
        }
    }

    /// Whether the input restarts the idle timer, where `known` is the best block known
    /// so far: a new block, a failed poll or the end of a suspension.
    pub open spec fn restarts(self, known: Option<u64>) -> bool {
        match self {
            InputView::Shutdown => false,
            InputView::Tick { best_block: Some(best), .. } => known != Some(best),
            InputView::Tick { best_block: None, .. } => known is Some,
            InputView::SuspendFinished { .. } => known is Some,
        }
    }
}

/// What the caller is to do next.
#[derive(Debug, Clone, Copy, PartialEq, Eq, Structural)]
pub enum MonitorAction {
    /// Wait for the next tick.
    AwaitTick,
    /// Suspend the machine.
    Suspend(IdleEvent),
    /// End the monitor.
    Stop,
}

/// A [`MonitorAction`] with times in nanoseconds.
pub enum ActionView {
    AwaitTick,
    Suspend(IdleEventView),
    Stop,
}

impl View for MonitorAction {
    type V = ActionView;

    open spec fn view(&self) -> ActionView {
        match *self {
            MonitorAction::AwaitTick => ActionView::AwaitTick,
            MonitorAction::Suspend(event) => ActionView::Suspend(event@),
            MonitorAction::Stop => ActionView::Stop,
        }
    }
}

/// What one step of the monitor gives.
#[derive(Debug, Clone, Copy, PartialEq, Eq, Structural)]
pub struct MonitorStep {
    /// Where a new block restarted the idle timer: seconds since the start of the monitor.
    pub restarted: Option<u64>,
    /// What the caller is to do next.
    pub action: MonitorAction,
}

/// What a [`Monitor`] holds, with all times in nanoseconds.
pub struct MonitorView {
    pub started_at: nat,
    pub scheduler: SchedulerView,
    pub stopped: bool,
}

/// Whole seconds in `nanos` nanoseconds.
pub open spec fn whole_secs(nanos: nat) -> nat {
    nanos / NANOS_PER_SEC as nat
}

impl SchedulerView {
    /// The state after one poll of the best block.
    pub open spec fn poll(self, best_block: Option<u64>, now: nat) -> SchedulerView {
        match best_block {
            Some(best) => self.observe(best, now),
            None => self.postpone(now),
        }
    }
}

impl MonitorView {
    /// The monitor when it starts.
    pub open spec fn initial(idle_window: nat, started_at: nat) -> MonitorView {
        MonitorView {
            started_at,
            scheduler: SchedulerView::initial(idle_window),
            stopped: false,
        }
    }

    /// Whether the monitor is waiting for `input`: for ticks unless a suspension is under
    /// way, for its end if one is, for a shutdown always, for nothing once stopped.
    pub open spec fn accepts(self, input: InputView) -> bool {
        &&& !self.stopped
        &&& match input {
            InputView::Shutdown => true,
            InputView::Tick { .. } => !self.scheduler.suspending,
            InputView::SuspendFinished { .. } => self.scheduler.suspending,
        }
    }

    /// Whether the monitor reacts to `input` by suspending the machine.
    pub open spec fn suspends(self, input: InputView) -> bool {
        match input {
            InputView::Tick { now, best_block } => self.scheduler.poll(best_block, now).due(now),
            _ => false,
        }
    }

    /// The monitor after `input`.
    pub open spec fn next(self, input: InputView) -> MonitorView {
        match input {
            InputView::Shutdown => MonitorView { stopped: true, ..self },
            InputView::Tick { now, best_block } => {
                let polled = self.scheduler.poll(best_block, now);
                MonitorView {
                    scheduler: if polled.due(now) {
                        polled.trigger()
                    } else {
                        polled
                    },
                    ..self
                }
            },
            InputView::SuspendFinished { now, .. } => MonitorView {
                scheduler: self.scheduler.reset_after_suspend_attempt(now),
                ..self
            },
        }
    }

    /// The event of a suspension that is triggered at `now`.
    pub open spec fn event(self, now: nat, request_id: RequestId) -> IdleEventView {
        IdleEventView {
            request_id,
            last_best_block_number: self.scheduler.last_best_block->0,
            idle_timer: self.scheduler.idle_window,
            last_seen_elapsed_secs: whole_secs(
                elapsed(self.started_at, self.scheduler.last_seen_at->0),
            ),
            triggered_elapsed_secs: whole_secs(elapsed(self.started_at, now)),
        }
    }

    /// The reaction to `input`, where a suspension would be identified by `request_id`.
    pub open spec fn action(self, input: InputView, request_id: RequestId) -> ActionView {
        match input {
            InputView::Shutdown => ActionView::Stop,
            InputView::SuspendFinished { .. } => ActionView::AwaitTick,
            InputView::Tick { now, .. } => if self.suspends(input) {
                ActionView::Suspend(self.next(input).event(now, request_id))
            } else {
                ActionView::AwaitTick
            },
        }
    }

    /// Seconds since the start of the monitor, where `input` brings a new block.
    pub open spec fn new_block_secs(self, input: InputView) -> Option<nat> {
        match input {
            InputView::Tick { now, best_block: Some(best) } => if self.scheduler.is_news(best) {
                Some(whole_secs(elapsed(self.started_at, now)))
            } else {
                None
            },
            _ => None,
        }
    }
}

/// `secs` as an unbounded number.
pub open spec fn unbounded(secs: Option<u64>) -> Option<nat> {
    match secs {
        Some(n) => Some(n as nat),
        None => None,
    }
}

/// The idle monitor of one machine.
#[derive(Debug)]
pub struct Monitor {
    started_at: Instant,
    scheduler: IdleSchedulerState,
    stopped: bool,
}

impl View for Monitor {
    type V = MonitorView;

    closed spec fn view(&self) -> MonitorView {
        MonitorView {
            started_at: self.started_at@,
            scheduler: self.scheduler@,
            stopped: self.stopped,
        }
    }
}

impl Monitor {
    /// A monitor that starts at `started_at` and has seen no block yet.
    pub fn new(cfg: IdleConfig, started_at: Instant) -> (m: Monitor)
        ensures
            m@ == MonitorView::initial(cfg.idle_timer@, started_at@),
            m@.started_at == started_at@,
            !m@.stopped,
            m@.scheduler.idle_window == cfg.idle_timer@,
            m@.scheduler.last_best_block is None,
            !m@.scheduler.suspending,
    {
        Monitor { started_at, scheduler: IdleSchedulerState::new(cfg.idle_timer), stopped: false }
    }

    /// Whether the monitor is waiting for `input`.
    pub fn accepts(&self, input: MonitorInput) -> (yes: bool)
        ensures
            yes == self@.accepts(input@),
            yes <==> !self@.stopped && match input {
                MonitorInput::Shutdown => true,
                MonitorInput::Tick { .. } => !self@.scheduler.suspending,
                MonitorInput::SuspendFinished { .. } => self@.scheduler.suspending,
            },
    {
        !self.stopped && match input {
            MonitorInput::Shutdown => true,
            MonitorInput::Tick { .. } => !self.scheduler.is_suspending(),
            MonitorInput::SuspendFinished { .. } => self.scheduler.is_suspending(),
        }
    }

    /// Whether `input` would restart the idle timer.
    pub fn restarts(&self, input: MonitorInput) -> (yes: bool)
        ensures
            yes == input@.restarts(self@.scheduler.last_best_block),
            yes <==> match input {
                MonitorInput::Shutdown => false,
                MonitorInput::Tick { best_block, .. } => best_block
                    != self@.scheduler.last_best_block,
                MonitorInput::SuspendFinished { .. } => self@.scheduler.last_best_block is Some,
            },
    {
        let known = self.scheduler.last_best_block();
        match input {
            MonitorInput::Shutdown => false,
            MonitorInput::Tick { best_block: Some(best), .. } => match known {
                Some(prev) => prev != best,
                None => true,
            },
            MonitorInput::Tick { best_block: None, .. } => known.is_some(),
            MonitorInput::SuspendFinished { .. } => known.is_some(),
        }
    }

    /// Takes in one poll of the best block.
    ///
    /// Where that restarts the idle timer because the block is new, returns the seconds
    /// since the start of the monitor.
    pub fn poll(&mut self, now: Instant, best_block: Option<u64>) -> (restarted: Option<u64>)
        requires
            (InputView::Tick { now: now@, best_block }).restarts(
                old(self)@.scheduler.last_best_block,
            ) ==> now@ + old(self)@.scheduler.idle_window <= MAX_NANOS,
        ensures
            final(self)@ == (MonitorView {
                scheduler: old(self)@.scheduler.poll(best_block, now@),
                ..old(self)@
            }),
            unbounded(restarted) == old(self)@.new_block_secs(
                InputView::Tick { now: now@, best_block },
            ),
            restarted is Some <==> best_block is Some && best_block
                != old(self)@.scheduler.last_best_block,
            restarted matches Some(secs) ==> secs == (if now@ > old(self)@.started_at {
                (now@ - old(self)@.started_at) / 1_000_000_000
            } else {
                0
            }),
            final(self)@.started_at == old(self)@.started_at,
            final(self)@.stopped == old(self)@.stopped,
            final(self)@.scheduler.last_best_block == (if best_block is Some {
                best_block
            } else {
                old(self)@.scheduler.last_best_block
            }),
    {
        match best_block {
            Some(best) => {
                if self.scheduler.observe_best_block(best, now) {
                    Some(now.duration_since(self.started_at).as_secs())
                } else {
                    None
                }
            },
            None => {
                self.scheduler.postpone(now);
                None
            },
        }
    }

    /// Begins the suspension that is due, identified by `request_id`.
    pub fn fire(&mut self, now: Instant, request_id: RequestId) -> (event: IdleEvent)
        requires
            old(self)@.scheduler.due(now@),
        ensures
            final(self)@ == (MonitorView {
                scheduler: old(self)@.scheduler.trigger(),
                ..old(self)@
            }),
            event@ == old(self)@.event(now@, request_id),
            final(self)@.scheduler.suspending,
            event.request_id == request_id,
            Some(event.last_best_block_number) == old(self)@.scheduler.last_best_block,
            event.idle_timer@ == old(self)@.scheduler.idle_window,
            old(self)@.scheduler.last_seen_at matches Some(seen) && event.last_seen_elapsed_secs
                == (if seen > old(self)@.started_at {
                (seen - old(self)@.started_at) / 1_000_000_000
            } else {
                0
            }),
            event.triggered_elapsed_secs == (if now@ > old(self)@.started_at {
                (now@ - old(self)@.started_at) / 1_000_000_000
            } else {
                0
            }),
    {
        proof {
            use_type_invariant(&self.scheduler);
        }
        self.scheduler.trigger();
        let last_best_block_number: u64 = match self.scheduler.last_best_block() {
            Some(best) => best,
            None => 0,
        };
        let last_seen_at = match self.scheduler.last_seen_at() {
            Some(at) => at,
            None => self.started_at,
        };
        IdleEvent {
            request_id,
            last_best_block_number,
            idle_timer: self.scheduler.idle_window(),
            last_seen_elapsed_secs: last_seen_at.duration_since(self.started_at).as_secs(),
            triggered_elapsed_secs: now.duration_since(self.started_at).as_secs(),
        }
    }

    /// Reacts to `input`.
    ///
    /// A suspension gets a fresh random identifier; all else is determined.
    pub fn step(&mut self, input: MonitorInput) -> (step: MonitorStep)
        requires
            old(self)@.accepts(input@),
            input@.restarts(old(self)@.scheduler.last_best_block) ==> input@.time()
                + old(self)@.scheduler.idle_window <= MAX_NANOS,
        ensures
            final(self)@ == old(self)@.next(input@),
            unbounded(step.restarted) == old(self)@.new_block_secs(input@),
            step.action is Suspend <==> old(self)@.suspends(input@),
            match step.action {
                MonitorAction::Suspend(event) => {
                    &&& is_random_uuid(event.request_id.bits)
                    &&& step.action@ == old(self)@.action(input@, event.request_id)
                },
                _ => forall|id: RequestId| step.action@ == #[trigger] old(self)@.action(input@, id),
            },
            final(self)@.started_at == old(self)@.started_at,
            final(self)@.scheduler.idle_window == old(self)@.scheduler.idle_window,
            step.action is Stop <==> input is Shutdown,
            final(self)@.stopped <==> input is Shutdown,
            match input {
                MonitorInput::Shutdown => {
                    &&& step.restarted is None
                    &&& final(self)@.scheduler == old(self)@.scheduler
                },
                MonitorInput::SuspendFinished { now, .. } => {
                    &&& step.restarted is None
                    &&& step.action is AwaitTick
                    &&& !final(self)@.scheduler.suspending
                    &&& final(self)@.scheduler.last_best_block
                        == old(self)@.scheduler.last_best_block
                    &&& old(self)@.scheduler.last_best_block is Some ==> {
                        &&& final(self)@.scheduler.last_seen_at == Some(now@)
                        &&& final(self)@.scheduler.next_idle_at == Some(
                            now@ + old(self)@.scheduler.idle_window,
                        )
                    }
                },
                MonitorInput::Tick { now, best_block } => {
                    let before = old(self)@.scheduler;
                    let after = final(self)@.scheduler;
                    &&& best_block is Some ==> after.last_best_block == best_block
                    &&& best_block is None ==> after.last_best_block == before.last_best_block
                    &&& best_block is Some && best_block != before.last_best_block ==> {
                        &&& step.restarted is Some
                        &&& after.last_seen_at == Some(now@)
                        &&& after.next_idle_at == Some(now@ + before.idle_window)
                    }
                    &&& best_block is Some && best_block == before.last_best_block ==> {
                        &&& step.restarted is None
                        &&& after.last_seen_at == before.last_seen_at
                        &&& after.next_idle_at == before.next_idle_at
                    }
                    &&& best_block is None ==> {
                        &&& step.restarted is None
                        &&& after.last_seen_at == before.last_seen_at
                        &&& before.last_best_block is Some ==> after.next_idle_at == Some(
                            now@ + before.idle_window,
                        )
                        &&& before.last_best_block is None ==> after.next_idle_at
                            == before.next_idle_at
                    }
                    &&& step.restarted matches Some(secs) ==> secs == (if now@
                        > old(self)@.started_at {
                        (now@ - old(self)@.started_at) / 1_000_000_000
                    } else {
                        0
                    })
                    &&& after.suspending <==> step.action is Suspend
                    &&& step.action is Suspend <==> after.last_best_block is Some
                        && after.next_idle_at is Some && now@ >= after.next_idle_at->0
                    &&& step.action matches MonitorAction::Suspend(event) ==> {
                        &&& Some(event.last_best_block_number) == after.last_best_block
                        &&& event.idle_timer@ == before.idle_window
                        &&& after.last_seen_at matches Some(seen) && event.last_seen_elapsed_secs
                            == (if seen > old(self)@.started_at {
                            (seen - old(self)@.started_at) / 1_000_000_000
                        } else {
                            0
                        })
                        &&& event.triggered_elapsed_secs == (if now@ > old(self)@.started_at {
                            (now@ - old(self)@.started_at) / 1_000_000_000
                        } else {
                            0
                        })
                    }
                },
            },
    {
        match input {
            MonitorInput::Shutdown => {
                self.stopped = true;
                MonitorStep { restarted: None, action: MonitorAction::Stop }
            },
            MonitorInput::Tick { now, best_block } => {
                let restarted = self.poll(now, best_block);
                if !self.scheduler.due(now) {
                    return MonitorStep { restarted, action: MonitorAction::AwaitTick };
                }
                let event = self.fire(now, RequestId::new_v4());
                MonitorStep { restarted, action: MonitorAction::Suspend(event) }
            },
            MonitorInput::SuspendFinished { now, .. } => {
                self.scheduler.reset_after_suspend_attempt(now);
                MonitorStep { restarted: None, action: MonitorAction::AwaitTick }
            },
        }
    }
}

/// The best block is polled every second.
pub proof fn law_polls_every_second()
    ensures
        POLL_INTERVAL_SECS == 1,
{
}

/// The monitor starts with the configured window, with no block known, and running.
pub proof fn law_new_monitor(idle_window: nat, started_at: nat)
    ensures
        ({
            let m = MonitorView::initial(idle_window, started_at);
            &&& m.started_at == started_at
            &&& !m.stopped
            &&& m.scheduler.idle_window == idle_window
            &&& m.scheduler.last_best_block is None
            &&& m.scheduler.next_idle_at is None
            &&& !m.scheduler.suspending
        }),
{
}

/// Exactly one of ticks and the end of a suspension is waited for, depending on whether one
/// is under way, and a shutdown always, until the monitor has stopped.
pub proof fn law_what_is_waited_for(
    m: MonitorView,
    now: nat,
    best_block: Option<u64>,
    ended: nat,
    succeeded: bool,
)
    ensures
        m.accepts(InputView::Shutdown) <==> !m.stopped,
        m.accepts(InputView::Tick { now, best_block }) <==> !m.stopped && !m.scheduler.suspending,
        m.accepts(InputView::SuspendFinished { now: ended, succeeded }) <==> !m.stopped
            && m.scheduler.suspending,
{
}

/// Activity is a block with another number than the known one, and, once a block is known, a
/// failed poll or the end of a suspension.
pub proof fn law_what_is_activity(now: nat, known: Option<u64>, best: u64, succeeded: bool)
    ensures
        (InputView::Tick { now, best_block: Some(best) }).restarts(known) <==> !(known is Some
            && known->0 == best),
        (InputView::Tick { now, best_block: None }).restarts(known) <==> known is Some,
        (InputView::SuspendFinished { now, succeeded }).restarts(known) <==> known is Some,
        !InputView::Shutdown.restarts(known),
        (InputView::Tick { now, best_block: Some(best) }).time() == now,
        (InputView::Tick { now, best_block: None }).time() == now,
        (InputView::SuspendFinished { now, succeeded }).time() == now,
{
}

/// A tick with a block: another block than the known one restarts the timer at the tick, the
/// same one leaves the times alone; the machine is suspended exactly if the deadline that
/// then holds has come.
pub proof fn law_tick_with_block(m: MonitorView, now: nat, best: u64)
    requires
        !m.scheduler.suspending,
        m.scheduler.well_formed(),
    ensures
        ({
            let tick = InputView::Tick { now, best_block: Some(best) };
            let n = m.next(tick);
            &&& n.started_at == m.started_at
            &&& n.stopped == m.stopped
            &&& n.scheduler.idle_window == m.scheduler.idle_window
            &&& n.scheduler.last_best_block == Some(best)
            &&& !(m.scheduler.last_best_block is Some && m.scheduler.last_best_block->0 == best)
                ==> {
                &&& n.scheduler.last_seen_at == Some(now)
                &&& n.scheduler.next_idle_at == Some(now + m.scheduler.idle_window)
                &&& m.new_block_secs(tick) is Some
            }
            &&& m.scheduler.last_best_block is Some && m.scheduler.last_best_block->0 == best ==> {
                &&& n.scheduler.last_seen_at == m.scheduler.last_seen_at
                &&& n.scheduler.next_idle_at == m.scheduler.next_idle_at
                &&& m.new_block_secs(tick) is None
            }
            &&& n.scheduler.next_idle_at is Some
            &&& m.suspends(tick) <==> now >= n.scheduler.next_idle_at->0
            &&& n.scheduler.suspending <==> m.suspends(tick)
        }),
{
}

/// A tick without a block: once a block is known the deadline moves a full window on, and
/// nothing else changes.
pub proof fn law_tick_without_block(m: MonitorView, now: nat)
    requires
        !m.scheduler.suspending,
        m.scheduler.well_formed(),
    ensures
        ({
            let tick = InputView::Tick { now, best_block: None };
            let n = m.next(tick);
            &&& n.started_at == m.started_at
            &&& n.stopped == m.stopped
            &&& n.scheduler.idle_window == m.scheduler.idle_window
            &&& n.scheduler.last_best_block == m.scheduler.last_best_block
            &&& n.scheduler.last_seen_at == m.scheduler.last_seen_at
            &&& m.scheduler.last_best_block is None ==> n.scheduler.next_idle_at is None
            &&& m.scheduler.last_best_block is Some ==> n.scheduler.next_idle_at == Some(
                now + m.scheduler.idle_window,
            )
            &&& m.suspends(tick) <==> m.scheduler.last_best_block is Some
                && m.scheduler.idle_window == 0
            &&& n.scheduler.suspending <==> m.suspends(tick)
            &&& m.new_block_secs(tick) is None
        }),
{
}

/// The end of a suspension lets the monitor wait for ticks again, with the block it had and
/// a full window from then on; a shutdown stops it and changes nothing else.
pub proof fn law_end_and_shutdown(m: MonitorView, now: nat, succeeded: bool, id: RequestId)
    ensures
        ({
            let end = InputView::SuspendFinished { now, succeeded };
            let n = m.next(end);
            &&& m.action(end, id) is AwaitTick
            &&& !m.suspends(end)
            &&& m.new_block_secs(end) is None
            &&& n.started_at == m.started_at
            &&& n.stopped == m.stopped
            &&& !n.scheduler.suspending
            &&& n.scheduler.idle_window == m.scheduler.idle_window
            &&& n.scheduler.last_best_block == m.scheduler.last_best_block
            &&& m.scheduler.last_best_block is Some ==> {
                &&& n.scheduler.last_seen_at == Some(now)
                &&& n.scheduler.next_idle_at == Some(now + m.scheduler.idle_window)
            }
        }),
        m.action(InputView::Shutdown, id) is Stop,
        !m.suspends(InputView::Shutdown),
        m.new_block_secs(InputView::Shutdown) is None,
        m.next(InputView::Shutdown).stopped,
        m.next(InputView::Shutdown).scheduler == m.scheduler,
        m.next(InputView::Shutdown).started_at == m.started_at,
{
}

/// A tick is answered by a suspension where one is due, and by waiting else; the event has
/// the given identifier, the block and window at hand, and both times in whole seconds
/// since the start.
pub proof fn law_answer_to_tick(
    m: MonitorView,
    now: nat,
    best_block: Option<u64>,
    id: RequestId,
    seen: nat,
)
    requires
        m.next(InputView::Tick { now, best_block }).scheduler.last_seen_at == Some(seen),
        m.started_at <= seen,
        m.started_at <= now,
    ensures
        ({
            let tick = InputView::Tick { now, best_block };
            let n = m.next(tick);
            &&& !m.suspends(tick) ==> m.action(tick, id) is AwaitTick
            &&& m.suspends(tick) ==> (m.action(tick, id) matches ActionView::Suspend(event) && {
                &&& event.request_id == id
                &&& Some(event.last_best_block_number) == n.scheduler.last_best_block
                &&& event.idle_timer == m.scheduler.idle_window
                &&& m.started_at + event.last_seen_elapsed_secs * 1_000_000_000 <= seen
                &&& seen < m.started_at + (event.last_seen_elapsed_secs + 1) * 1_000_000_000
                &&& m.started_at + event.triggered_elapsed_secs * 1_000_000_000 <= now
                &&& now < m.started_at + (event.triggered_elapsed_secs + 1) * 1_000_000_000
            })
            &&& m.new_block_secs(tick) matches Some(secs) ==> {
                &&& m.started_at + secs * 1_000_000_000 <= now
                &&& now < m.started_at + (secs + 1) * 1_000_000_000
            }
        }),
{
}

/// Whole seconds are those that fit, and no more would.
pub proof fn law_whole_secs(nanos: nat)
    ensures
        whole_secs(nanos) * 1_000_000_000 <= nanos,
        nanos < (whole_secs(nanos) + 1) * 1_000_000_000,
{
}

/// Inputs, events and actions are seen as they are, part by part.
pub proof fn law_seen_as_they_are(
    now: Instant,
    best_block: Option<u64>,
    succeeded: bool,
    event: IdleEvent,
    secs: u64,
)
    ensures
        MonitorInput::Shutdown@ is Shutdown,
        (MonitorInput::Tick { now, best_block })@ matches InputView::Tick { now: t, best_block: b }
            && t == now@ && b == best_block,
        (MonitorInput::SuspendFinished { now, succeeded })@ matches InputView::SuspendFinished {
            now: t,
            succeeded: s,
        } && t == now@ && s == succeeded,
        MonitorAction::AwaitTick@ is AwaitTick,
        MonitorAction::Stop@ is Stop,
        MonitorAction::Suspend(event)@ matches ActionView::Suspend(e) && e == event@,
        event@.request_id == event.request_id,
        event@.last_best_block_number == event.last_best_block_number,
        event@.idle_timer == event.idle_timer@,
        event@.last_seen_elapsed_secs == event.last_seen_elapsed_secs,
        event@.triggered_elapsed_secs == event.triggered_elapsed_secs,
        unbounded(Some(secs)) == Some(secs as nat),
        unbounded(None) is None,
{
}

} // verus!
