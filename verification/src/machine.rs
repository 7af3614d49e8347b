//! Table-driven supervisor state machine.
//!
//! The machine is pure: it consumes [`MachineEvent`]s and emits an [`Outcome`]
//! of side-effect [`Action`]s for the daemon to execute. It owns no timers and
//! spawns no processes: the daemon arms timers and feeds the elapsed events
//! back in.

use vstd::prelude::*;

use crate::backoff::BackoffConfig;
use crate::state::{DegradedReason, ExitClass, SupervisorState};

verus! {

/// Input to the state machine: user commands, child lifecycle, timers, faults.
#[derive(Debug, Clone, Copy, PartialEq, Eq, Structural)]
pub enum MachineEvent {
    /// User asked to start (also: autostart at daemon boot).
    Start,
    /// User asked to stop; the daemon keeps running.
    Stop,
    /// Restart request (user, config change, device re-sync).
    Restart,
    /// User toggled pause.
    Pause,
    /// User resumed from pause.
    Resume,
    /// The daemon spawned the child successfully.
    SpawnSucceeded,
    /// The daemon could not spawn the child (I/O error other than a missing binary).
    SpawnFailed,
    /// The child exited.
    ChildExited(ExitClass),
    /// The backoff timer armed by [`Action::ArmBackoff`] fired.
    BackoffElapsed,
    /// The healthy-window timer armed by [`Action::ArmHealthyTimer`] fired
    /// while the child was still running: reset the retry budget.
    HealthyElapsed,
    /// A preflight or health check failed; go `Degraded` with a reason,
    /// never a crash loop.
    Fault(DegradedReason),
    /// The *running* child reported its output backend gone and released the
    /// input devices: keys pass through unremapped. Unlike
    /// [`MachineEvent::Fault`] the child is left alive: kanata retries the
    /// backend itself and prints a recovery line.
    OutputBackendLost,
    /// The child's output backend came back and it re-grabbed the devices;
    /// leave `Degraded{OutputBackendUnavailable}` without a respawn.
    OutputBackendRecovered,
}

/// Side effect the daemon must perform after a transition.
#[derive(Debug, Clone, Copy, PartialEq, Eq, Structural)]
pub enum Action {
    /// Preflight + spawn the kanata child.
    SpawnChild,
    /// Gracefully terminate the child: SIGTERM, grace, SIGKILL.
    StopChild,
    /// Arm the crash-recovery timer; feed back `BackoffElapsed` when it fires.
    ArmBackoff {
        /// Delay before the next start attempt, from [`BackoffConfig::delay_ms`].
        delay_ms: u64,
    },
    /// Arm the healthy-window timer; feed back `HealthyElapsed` if still running.
    ArmHealthyTimer,
}

/// A state transition, pushed to IPC subscribers and logged.
#[derive(Debug, Clone, Copy, PartialEq, Eq, Structural)]
pub struct StateChanged {
    /// State before the event.
    pub from: SupervisorState,
    /// State after the event.
    pub to: SupervisorState,
    /// Why we are `Degraded`, when `to == Degraded`.
    pub reason: Option<DegradedReason>,
}

/// Result of handling one event.
#[derive(Debug, Clone, PartialEq, Eq)]
pub struct Outcome {
    /// The transition, if the state changed.
    pub transition: Option<StateChanged>,
    /// Side effects to execute, in order.
    pub actions: Vec<Action>,
}

impl Outcome {
    fn ignore() -> (r: Self)
        ensures
            r.transition is None,
            r.actions@ == Seq::<Action>::empty(),
    {
        Outcome { transition: None, actions: Vec::new() }
    }
}

/// The supervisor state machine.
#[derive(Debug, Clone)]
pub struct Machine {
    /// Current state.
    pub state: SupervisorState,
    /// Consecutive failures since the last healthy window / user start.
    pub failures: u32,
    /// Why the machine is `Degraded`.
    pub reason: Option<DegradedReason>,
    /// The retry schedule and budget.
    pub backoff: BackoffConfig,
}

/// The failure count one higher, saturating.
pub open spec fn one_more(failures: u32) -> u32 {
    if failures < u32::MAX {
        (failures + 1) as u32
    } else {
        u32::MAX
    }
}

impl Machine {
    /// A reason is kept exactly while `Degraded`.
    pub open spec fn wf(self) -> bool {
        self.reason is Some <==> self.state == SupervisorState::Degraded
    }

    /// A child is being started or is up.
    pub open spec fn active(self) -> bool {
        self.state == SupervisorState::Starting || self.state == SupervisorState::Running
    }

    /// States in which a kanata child may be alive. `Degraded` is among them:
    /// a lost output backend leaves the child running.
    pub open spec fn may_hold_child(self) -> bool {
        self.active() || self.state == SupervisorState::Degraded
    }

    /// The event counts against the retry budget.
    pub open spec fn fails(self, event: MachineEvent) -> bool {
        match event {
            MachineEvent::SpawnFailed => self.state == SupervisorState::Starting,
            MachineEvent::ChildExited(ExitClass::Crash { .. }) => self.active(),
            _ => false,
        }
    }

    /// One more failure spends the retry budget.
    pub open spec fn spends_budget(self) -> bool {
        one_more(self.failures) >= self.backoff.budget
    }

    /// The state that an event leads to; `None` where the event is ignored.
    pub open spec fn target(self, event: MachineEvent) -> Option<SupervisorState> {
        if self.fails(event) {
            if self.spends_budget() {
                Some(SupervisorState::Degraded)
            } else {
                Some(SupervisorState::Backoff)
            }
        } else {
            let (accepted, next) = match event {
                MachineEvent::Start => (!self.active(), SupervisorState::Starting),
                MachineEvent::Stop => (
                    self.state != SupervisorState::Stopped,
                    SupervisorState::Stopped,
                ),
                MachineEvent::Restart => (
                    self.state != SupervisorState::Starting && self.state
                        != SupervisorState::Paused,
                    SupervisorState::Starting,
                ),
                MachineEvent::Pause => (
                    self.state == SupervisorState::Running,
                    SupervisorState::Paused,
                ),
                MachineEvent::Resume => (
                    self.state == SupervisorState::Paused,
                    SupervisorState::Starting,
                ),
                MachineEvent::SpawnSucceeded => (
                    self.state == SupervisorState::Starting,
                    SupervisorState::Running,
                ),
                MachineEvent::ChildExited(ExitClass::PanicEscape) => (
                    self.active(),
                    SupervisorState::Stopped,
                ),
                MachineEvent::BackoffElapsed => (
                    self.state == SupervisorState::Backoff,
                    SupervisorState::Starting,
                ),
                MachineEvent::Fault(_) => (
                    self.active() || self.state == SupervisorState::Backoff,
                    SupervisorState::Degraded,
                ),
                MachineEvent::OutputBackendLost => (
                    self.state == SupervisorState::Running,
                    SupervisorState::Degraded,
                ),
                MachineEvent::OutputBackendRecovered => (
                    self.state == SupervisorState::Degraded && self.reason == Some(
                        DegradedReason::OutputBackendUnavailable,
                    ),
                    SupervisorState::Running,
                ),
                _ => (false, self.state),
            };
            if accepted {
                Some(next)
            } else {
                None
            }
        }
    }

    /// Why an event that leads to `Degraded` does so.
    pub open spec fn cause(self, event: MachineEvent) -> DegradedReason {
        match event {
            MachineEvent::Fault(reason) => reason,
            MachineEvent::OutputBackendLost => DegradedReason::OutputBackendUnavailable,
            _ => DegradedReason::RetryBudgetExhausted,
        }
    }

    /// The reason kept after an event.
    pub open spec fn reason_after(self, event: MachineEvent) -> Option<DegradedReason> {
        match self.target(event) {
            None => self.reason,
            Some(SupervisorState::Degraded) => Some(self.cause(event)),
            Some(_) => None,
        }
    }

    /// The failure count after an event: one more on a failure, none after an
    /// explicit start or a healthy window.
    pub open spec fn failures_after(self, event: MachineEvent) -> u32 {
        if self.fails(event) {
            one_more(self.failures)
        } else if (event == MachineEvent::Start || event == MachineEvent::Resume) && self.target(
            event,
        ) is Some {
            0
        } else if event == MachineEvent::HealthyElapsed && self.state == SupervisorState::Running {
            0
        } else {
            self.failures
        }
    }

    /// The machine after an event.
    pub open spec fn after(self, event: MachineEvent) -> Machine {
        Machine {
            state: match self.target(event) {
                Some(next) => next,
                None => self.state,
            },
            failures: self.failures_after(event),
            reason: self.reason_after(event),
            backoff: self.backoff,
        }
    }

    /// The transition that an event reports.
    pub open spec fn change(self, event: MachineEvent) -> Option<StateChanged> {
        match self.target(event) {
            Some(to) => Some(
                StateChanged { from: self.state, to, reason: self.reason_after(event) },
            ),
            None => None,
        }
    }

    /// The side effects of an event, in order: a child that may be alive is
    /// stopped before another is spawned, and when the user stops or pauses or
    /// a fault hits a running child; each way into `Running` arms the healthy
    /// timer, and each way into `Backoff` arms the retry timer.
    pub open spec fn effects(self, event: MachineEvent) -> Seq<Action> {
        match self.target(event) {
            None => Seq::empty(),
            Some(SupervisorState::Starting) => if self.may_hold_child() {
                seq![Action::StopChild, Action::SpawnChild]
            } else {
                seq![Action::SpawnChild]
            },
            Some(SupervisorState::Running) => seq![Action::ArmHealthyTimer],
            Some(SupervisorState::Backoff) => seq![
                Action::ArmBackoff {
                    delay_ms: self.backoff.delay((one_more(self.failures) - 1) as nat) as u64,
                },
            ],
            Some(SupervisorState::Paused) => seq![Action::StopChild],
            Some(SupervisorState::Stopped) => if event == MachineEvent::Stop
                && self.may_hold_child() {
                seq![Action::StopChild]
            } else {
                Seq::empty()
            },
            Some(SupervisorState::Degraded) => if event is Fault && self.state
                == SupervisorState::Running {
                seq![Action::StopChild]
            } else {
                Seq::empty()
            },
        }
    }

    /// A machine in `Stopped` with a fresh failure budget.
    pub fn new(backoff: BackoffConfig) -> (r: Self)
        ensures
            r == (Machine { state: SupervisorState::Stopped, failures: 0, reason: None, backoff }),
            r.wf(),
    {
        Machine { state: SupervisorState::Stopped, failures: 0, reason: None, backoff }
    }

    /// Current state.
    pub fn state(&self) -> (r: SupervisorState)
        ensures
            r == self.state,
    {
        self.state
    }

    /// Consecutive failures counted against the retry budget.
    pub fn failures(&self) -> (r: u32)
        ensures
            r == self.failures,
    {
        self.failures
    }

    /// Why we are `Degraded`, when in that state.
    pub fn degraded_reason(&self) -> (r: Option<DegradedReason>)
        ensures
            r == self.reason,
    {
        self.reason
    }

    /// Advance the machine. Unexpected `(state, event)` pairs are ignored
    /// (stale timers, exits already handled).
    pub fn handle(&mut self, event: MachineEvent) -> (out: Outcome)
        ensures
            *final(self) == old(self).after(event),
            out.transition == old(self).change(event),
            out.actions@ == old(self).effects(event),
            old(self).wf() ==> final(self).wf(),
    {
        // Exits we requested were already driven by the Stop/Restart/Pause
        // transition; the exit itself is not news.
        if matches!(event, MachineEvent::ChildExited(ExitClass::Requested)) {
            return Outcome::ignore();
        }
        match (self.state, event) {
            // ── User start / resume: explicit user intent grants a fresh budget.
            //    Degraded stops the child first: `Degraded{OutputBackendUnavailable}`
            //    keeps kanata alive, and there must never be two of them.
            (SupervisorState::Degraded, MachineEvent::Start) => {
                self.failures = 0;
                self.enter(
                    SupervisorState::Starting,
                    vec![Action::StopChild, Action::SpawnChild],
                )
            },
            (
                SupervisorState::Stopped | SupervisorState::Paused | SupervisorState::Backoff,
                MachineEvent::Start,
            )
            | (SupervisorState::Paused, MachineEvent::Resume) => {
                self.failures = 0;
                self.enter(SupervisorState::Starting, vec![Action::SpawnChild])
            },
            // ── Restart: from Running/Degraded, stop then respawn; from Backoff
            //    (user action) or Stopped, just spawn. The budget is kept so that
            //    automated restarts (device/config change) can't mask crash loops.
            (
                SupervisorState::Running | SupervisorState::Degraded,
                MachineEvent::Restart,
            ) => self.enter(
                SupervisorState::Starting,
                vec![Action::StopChild, Action::SpawnChild],
            ),
            (
                SupervisorState::Stopped | SupervisorState::Backoff,
                MachineEvent::Restart,
            ) => self.enter(SupervisorState::Starting, vec![Action::SpawnChild]),
            // ── Stop: from anywhere active; daemon keeps running. Degraded may
            //    hold a live child (backend-unavailable), so stop it too.
            (
                SupervisorState::Starting | SupervisorState::Running | SupervisorState::Degraded,
                MachineEvent::Stop,
            ) => self.enter(SupervisorState::Stopped, vec![Action::StopChild]),
            (SupervisorState::Backoff | SupervisorState::Paused, MachineEvent::Stop) => self.enter(
                SupervisorState::Stopped,
                vec![],
            ),
            // ── Pause: only meaningful while running.
            (SupervisorState::Running, MachineEvent::Pause) => self.enter(
                SupervisorState::Paused,
                vec![Action::StopChild],
            ),
            // ── Spawn results.
            (SupervisorState::Starting, MachineEvent::SpawnSucceeded) => self.enter(
                SupervisorState::Running,
                vec![Action::ArmHealthyTimer],
            ),
            (SupervisorState::Starting, MachineEvent::SpawnFailed) => self.on_failure(),
            // ── Child exits (unrequested).
            (
                SupervisorState::Starting | SupervisorState::Running,
                MachineEvent::ChildExited(ExitClass::Crash { .. }),
            ) => self.on_failure(),
            // Panic escape is an intentional stop, never a crash-loop trigger.
            (
                SupervisorState::Starting | SupervisorState::Running,
                MachineEvent::ChildExited(ExitClass::PanicEscape),
            ) => self.enter(SupervisorState::Stopped, vec![]),
            // ── Timers.
            (SupervisorState::Backoff, MachineEvent::BackoffElapsed) => self.enter(
                SupervisorState::Starting,
                vec![Action::SpawnChild],
            ),
            (SupervisorState::Running, MachineEvent::HealthyElapsed) => {
                self.failures = 0;
                Outcome::ignore()
            },
            // ── Faults from preflight/health checks: actionable Degraded, no loop.
            (
                SupervisorState::Starting | SupervisorState::Backoff,
                MachineEvent::Fault(reason),
            ) => self.enter_degraded(reason, vec![]),
            (SupervisorState::Running, MachineEvent::Fault(reason)) => self.enter_degraded(
                reason,
                vec![Action::StopChild],
            ),
            // ── Live output-backend health. The child is deliberately KEPT:
            //    kanata retries the backend itself, so recovery needs no respawn,
            //    just flip back to Running.
            (SupervisorState::Running, MachineEvent::OutputBackendLost) => self.enter_degraded(
                DegradedReason::OutputBackendUnavailable,
                vec![],
            ),
            (SupervisorState::Degraded, MachineEvent::OutputBackendRecovered) => {
                if matches!(self.reason, Some(DegradedReason::OutputBackendUnavailable)) {
                    self.enter(SupervisorState::Running, vec![Action::ArmHealthyTimer])
                } else {
                    Outcome::ignore()
                }
            },
            // Everything else (stale timers, duplicate commands, exits in
            // terminal states) is deliberately a no-op.
            _ => Outcome::ignore(),
        }
    }

    /// Count a failure against the budget: `Backoff` while budget remains,
    /// `Degraded{RetryBudgetExhausted}` once it is spent.
    fn on_failure(&mut self) -> (out: Outcome)
        ensures
            final(self).failures == one_more(old(self).failures),
            final(self).backoff == old(self).backoff,
            final(self).state == (if old(self).spends_budget() {
                SupervisorState::Degraded
            } else {
                SupervisorState::Backoff
            }),
            final(self).reason == (if old(self).spends_budget() {
                Some(DegradedReason::RetryBudgetExhausted)
            } else {
                None
            }),
            out.transition == Some(
                StateChanged {
                    from: old(self).state,
                    to: final(self).state,
                    reason: final(self).reason,
                },
            ),
            out.actions@ == (if old(self).spends_budget() {
                Seq::empty()
            } else {
                seq![
                    Action::ArmBackoff {
                        delay_ms: old(self).backoff.delay(
                            (one_more(old(self).failures) - 1) as nat,
                        ) as u64,
                    },
                ]
            }),
    {
        self.failures = self.failures.saturating_add(1);
        if self.backoff.budget_spent(self.failures) {
            self.enter_degraded(DegradedReason::RetryBudgetExhausted, vec![])
        } else {
            let delay_ms: u64 = self.backoff.delay_ms(self.failures - 1);
            self.enter(SupervisorState::Backoff, vec![Action::ArmBackoff { delay_ms }])
        }
    }

    fn enter(&mut self, next: SupervisorState, actions: Vec<Action>) -> (out: Outcome)
        ensures
            *final(self) == (Machine { state: next, reason: None, ..*old(self) }),
            out.transition == Some(
                StateChanged { from: old(self).state, to: next, reason: None },
            ),
            out.actions == actions,
    {
        self.reason = None;
        self.transition(next, actions)
    }

    fn enter_degraded(&mut self, reason: DegradedReason, actions: Vec<Action>) -> (out: Outcome)
        ensures
            *final(self) == (Machine {
                state: SupervisorState::Degraded,
                reason: Some(reason),
                ..*old(self)
            }),
            out.transition == Some(
                StateChanged {
                    from: old(self).state,
                    to: SupervisorState::Degraded,
                    reason: Some(reason),
                },
            ),
            out.actions == actions,
    {
        self.reason = Some(reason);
        self.transition(SupervisorState::Degraded, actions)
    }

    fn transition(&mut self, next: SupervisorState, actions: Vec<Action>) -> (out: Outcome)
        ensures
            *final(self) == (Machine { state: next, ..*old(self) }),
            out.transition == Some(
                StateChanged { from: old(self).state, to: next, reason: old(self).reason },
            ),
            out.actions == actions,
    {
        let from = self.state;
        self.state = next;
        Outcome { transition: Some(StateChanged { from, to: next, reason: self.reason }), actions }
    }
}

// ── Runs of the machine ─────────────────────────────────────────────────────

/// The machine after a run of events.
pub open spec fn run(m: Machine, events: Seq<MachineEvent>) -> Machine
    decreases events.len(),
{
    if events.len() == 0 {
        m
    } else {
        run(m, events.drop_last()).after(events.last())
    }
}

/// Whether a child is alive after one action was carried out.
pub open spec fn alive_after_action(alive: bool, action: Action) -> bool {
    match action {
        Action::SpawnChild => true,
        Action::StopChild => false,
        _ => alive,
    }
}

/// Whether a child is alive after the actions were carried out in order.
pub open spec fn alive_after_actions(alive: bool, actions: Seq<Action>) -> bool
    decreases actions.len(),
{
    if actions.len() == 0 {
        alive
    } else {
        alive_after_action(alive_after_actions(alive, actions.drop_last()), actions.last())
    }
}

/// Whether a child is alive when an event arrives: an exit or a failed spawn
/// reports that there is none.
pub open spec fn alive_at(alive: bool, event: MachineEvent) -> bool {
    alive && !(event is ChildExited) && !(event is SpawnFailed)
}

/// Whether a child is alive after a run of events, each event's actions
/// carried out before the next event arrives.
pub open spec fn alive(m: Machine, events: Seq<MachineEvent>) -> bool
    decreases events.len(),
{
    if events.len() == 0 {
        false
    } else {
        let before = events.drop_last();
        let event = events.last();
        alive_after_actions(alive_at(alive(m, before), event), run(m, before).effects(event))
    }
}

/// No action spawns a child while one is alive.
pub open spec fn no_second_child(alive: bool, actions: Seq<Action>) -> bool {
    forall|i: int|
        0 <= i < actions.len() && #[trigger] actions[i] == Action::SpawnChild
            ==> !alive_after_actions(alive, actions.take(i))
}

/// A child is alive only in a state that may hold one.
pub proof fn alive_only_where_held(m: Machine, events: Seq<MachineEvent>)
    ensures
        alive(m, events) ==> run(m, events).may_hold_child(),
    decreases events.len(),
{
    reveal_with_fuel(alive_after_actions, 3);
    if events.len() > 0 {
        alive_only_where_held(m, events.drop_last());
    }
}

/// Single instance: whatever the run of events, no event makes the daemon spawn
/// a child beside a living one.
pub proof fn never_two_children(m: Machine, events: Seq<MachineEvent>, event: MachineEvent)
    ensures
        no_second_child(
            alive_at(alive(m, events), event),
            run(m, events).effects(event),
        ),
{
    reveal_with_fuel(alive_after_actions, 3);
    alive_only_where_held(m, events);
    let before = run(m, events);
    let actions = before.effects(event);
    let a = alive_at(alive(m, events), event);
    assert forall|i: int|
        0 <= i < actions.len() && #[trigger] actions[i]
            == Action::SpawnChild implies !alive_after_actions(a, actions.take(i)) by {
        if i == 1 {
            assert(actions.take(1).last() == Action::StopChild);
        } else {
            assert(actions.take(0) =~= Seq::<Action>::empty());
        }
    }
}

/// A reason is kept exactly while `Degraded`, after any run.
pub proof fn reason_only_in_degraded(m: Machine, events: Seq<MachineEvent>)
    requires
        m.wf(),
    ensures
        run(m, events).wf(),
    decreases events.len(),
{
    if events.len() > 0 {
        reason_only_in_degraded(m, events.drop_last());
    }
}

/// A reported transition names the state before and after, and the reason held
/// after it; an event that reports none leaves the state as it was.
pub proof fn change_reports_the_step(m: Machine, event: MachineEvent)
    ensures
        match m.change(event) {
            Some(c) => c.from == m.state && c.to == m.after(event).state && c.reason == m.after(
                event,
            ).reason && c.from != c.to,
            None => m.after(event).state == m.state && m.after(event).reason == m.reason
                && m.effects(event) == Seq::<Action>::empty(),
        },
{
}

/// One crash and its recovery: the child comes up, crashes, and the retry
/// timer fires.
pub open spec fn crash_cycle(code: Option<i32>, signal: Option<i32>) -> Seq<MachineEvent> {
    seq![
        MachineEvent::SpawnSucceeded,
        MachineEvent::ChildExited(ExitClass::Crash { code, signal }),
        MachineEvent::BackoffElapsed,
    ]
}

/// `n` crash cycles in a row.
pub open spec fn crash_cycles(n: nat, code: Option<i32>, signal: Option<i32>) -> Seq<MachineEvent>
    decreases n,
{
    if n == 0 {
        Seq::empty()
    } else {
        crash_cycles((n - 1) as nat, code, signal) + crash_cycle(code, signal)
    }
}

/// A run of two runs, one after the other.
pub proof fn run_concat(m: Machine, a: Seq<MachineEvent>, b: Seq<MachineEvent>)
    ensures
        run(m, a + b) == run(run(m, a), b),
    decreases b.len(),
{
    if b.len() == 0 {
        assert(a + b =~= a);
    } else {
        assert((a + b).drop_last() =~= a + b.drop_last());
        assert((a + b).last() == b.last());
        run_concat(m, a, b.drop_last());
    }
}

/// What one crash cycle does to a machine that is starting.
proof fn one_cycle(m: Machine, code: Option<i32>, signal: Option<i32>)
    requires
        m.state == SupervisorState::Starting,
        m.failures < u32::MAX,
    ensures
        m.failures + 1 < m.backoff.budget ==> run(m, crash_cycle(code, signal)) == (Machine {
            failures: (m.failures + 1) as u32,
            reason: None,
            ..m
        }),
        m.failures + 1 >= m.backoff.budget ==> run(m, crash_cycle(code, signal)) == (Machine {
            state: SupervisorState::Degraded,
            failures: (m.failures + 1) as u32,
            reason: Some(DegradedReason::RetryBudgetExhausted),
            ..m
        }),
{
    let c = crash_cycle(code, signal);
    reveal_with_fuel(run, 4);
    assert(c.drop_last() =~= seq![c[0], c[1]]);
    assert(c.drop_last().drop_last() =~= seq![c[0]]);
    assert(c.drop_last().drop_last().drop_last() =~= Seq::<MachineEvent>::empty());
}

/// The crash ladder: after `n` crash cycles, fewer than the budget, a started
/// machine is starting again with `n` failures; the wait before retry `n` is
/// the backoff delay for attempt `n - 1`.
pub proof fn crash_loop_walks_the_ladder(
    m: Machine,
    n: nat,
    code: Option<i32>,
    signal: Option<i32>,
)
    requires
        m.state == SupervisorState::Starting,
        m.failures == 0,
        n < m.backoff.budget,
    ensures
        run(m, crash_cycles(n, code, signal)) == (Machine {
            failures: n as u32,
            reason: if n == 0 {
                m.reason
            } else {
                None
            },
            ..m
        }),
        n + 1 < m.backoff.budget ==> run(m, crash_cycles(n, code, signal)).after(
            MachineEvent::SpawnSucceeded,
        ).effects(MachineEvent::ChildExited(ExitClass::Crash { code, signal })) == seq![
            Action::ArmBackoff { delay_ms: m.backoff.delay(n) as u64 },
        ],
    decreases n,
{
    if n > 0 {
        let k = (n - 1) as nat;
        crash_loop_walks_the_ladder(m, k, code, signal);
        run_concat(m, crash_cycles(k, code, signal), crash_cycle(code, signal));
        one_cycle(run(m, crash_cycles(k, code, signal)), code, signal);
    }
}

/// The ladder ends: as many crash cycles as the budget allows leave the machine
/// degraded with the budget as the reason.
pub proof fn crash_loop_ends_degraded(m: Machine, code: Option<i32>, signal: Option<i32>)
    requires
        m.state == SupervisorState::Starting,
        m.failures == 0,
        m.backoff.budget > 0,
    ensures
        ({
            let end = run(m, crash_cycles(m.backoff.budget as nat, code, signal));
            &&& end.state == SupervisorState::Degraded
            &&& end.reason == Some(DegradedReason::RetryBudgetExhausted)
            &&& end.failures == m.backoff.budget
        }),
{
    let k = (m.backoff.budget - 1) as nat;
    crash_loop_walks_the_ladder(m, k, code, signal);
    run_concat(m, crash_cycles(k, code, signal), crash_cycle(code, signal));
    one_cycle(run(m, crash_cycles(k, code, signal)), code, signal);
}

/// A panic escape is an intentional stop: it never backs off, degrades or
/// counts as a failure.
pub proof fn panic_escape_never_loops(m: Machine)
    ensures
        ({
            let event = MachineEvent::ChildExited(ExitClass::PanicEscape);
            &&& m.after(event).failures == m.failures
            &&& m.effects(event) == Seq::<Action>::empty()
            &&& m.active() ==> m.after(event).state == SupervisorState::Stopped
            &&& !m.active() ==> m.after(event) == m
        }),
{
}

/// A user start that is accepted always grants a fresh budget and leaves the
/// machine starting; a restart keeps the budget.
pub proof fn start_grants_a_fresh_budget(m: Machine)
    ensures
        !m.active() ==> m.after(MachineEvent::Start).failures == 0 && m.after(
            MachineEvent::Start,
        ).state == SupervisorState::Starting && m.after(MachineEvent::Start).reason is None,
        m.active() ==> m.after(MachineEvent::Start) == m,
        m.after(MachineEvent::Restart).failures == m.failures,
{
}

/// Stop settles every machine in `Stopped`, and stopping again changes nothing.
pub proof fn stop_settles(m: Machine)
    ensures
        m.after(MachineEvent::Stop).state == SupervisorState::Stopped,
        m.after(MachineEvent::Stop).after(MachineEvent::Stop) == m.after(MachineEvent::Stop),
        m.after(MachineEvent::Stop).effects(MachineEvent::Stop) == Seq::<Action>::empty(),
{
}

/// Losing the output backend and getting it back is a round trip: the child is
/// neither stopped nor respawned and the failure count stays.
pub proof fn backend_round_trip(m: Machine)
    requires
        m.state == SupervisorState::Running,
        m.wf(),
    ensures
        ({
            let lost = m.after(MachineEvent::OutputBackendLost);
            &&& lost.state == SupervisorState::Degraded
            &&& lost.reason == Some(DegradedReason::OutputBackendUnavailable)
            &&& m.effects(MachineEvent::OutputBackendLost) == Seq::<Action>::empty()
            &&& lost.after(MachineEvent::OutputBackendRecovered) == m
            &&& lost.effects(MachineEvent::OutputBackendRecovered) == seq![Action::ArmHealthyTimer]
        }),
{
}

/// A recovery lifts only the degradation that the backend caused.
pub proof fn recovery_lifts_only_the_backend(m: Machine)
    requires
        m.reason != Some(DegradedReason::OutputBackendUnavailable),
    ensures
        m.after(MachineEvent::OutputBackendRecovered) == m,
        m.effects(MachineEvent::OutputBackendRecovered) == Seq::<Action>::empty(),
{
}

// ── What each event is for ──────────────────────────────────────────────────

/// The machine stays as it is, reports nothing and does nothing.
pub open spec fn ignored(m: Machine, event: MachineEvent) -> bool {
    &&& m.after(event) == m
    &&& m.change(event) is None
    &&& m.effects(event) == Seq::<Action>::empty()
}

/// The machine is in the state with the reason afterwards, and reports just that.
pub open spec fn moves(
    m: Machine,
    event: MachineEvent,
    to: SupervisorState,
    reason: Option<DegradedReason>,
) -> bool {
    &&& m.after(event).state == to
    &&& m.after(event).reason == reason
    &&& m.after(event).backoff == m.backoff
    &&& m.change(event) == Some(StateChanged { from: m.state, to, reason })
}

/// A fault is told as what it is: while a child is wanted, every fault degrades
/// the machine with its own reason, in what is kept and in what is reported. It
/// costs no retry, and a child that is running is stopped. Otherwise there is
/// nothing to degrade.
pub proof fn faults_keep_their_reason(m: Machine, reason: DegradedReason)
    ensures
        ({
            let event = MachineEvent::Fault(reason);
            let wanted = m.state == SupervisorState::Starting || m.state
                == SupervisorState::Running || m.state == SupervisorState::Backoff;
            &&& wanted ==> moves(m, event, SupervisorState::Degraded, Some(reason))
            &&& wanted ==> m.after(event).failures == m.failures
            &&& m.state == SupervisorState::Running ==> m.effects(event) == seq![Action::StopChild]
            &&& m.state != SupervisorState::Running ==> m.effects(event) == Seq::<Action>::empty()
            &&& !wanted ==> ignored(m, event)
        }),
{
}

/// Two faults that hit the same machine differ afterwards exactly as the faults
/// did.
pub proof fn faults_are_told_apart(m: Machine, a: DegradedReason, b: DegradedReason)
    requires
        m.state == SupervisorState::Starting || m.state == SupervisorState::Running || m.state
            == SupervisorState::Backoff,
        a != b,
    ensures
        m.after(MachineEvent::Fault(a)).reason != m.after(MachineEvent::Fault(b)).reason,
        m.change(MachineEvent::Fault(a)) != m.change(MachineEvent::Fault(b)),
{
    faults_keep_their_reason(m, a);
    faults_keep_their_reason(m, b);
}

/// "kanata keeps crashing" is said only of a machine that ran out of retries:
/// where an event brings that reason, a spawn failed or the child crashed and
/// that failure reached the budget, or a fault brought the reason itself.
pub proof fn exhaustion_is_earned(m: Machine, event: MachineEvent)
    requires
        m.after(event).reason == Some(DegradedReason::RetryBudgetExhausted),
        m.reason != Some(DegradedReason::RetryBudgetExhausted),
    ensures
        event == MachineEvent::Fault(DegradedReason::RetryBudgetExhausted) || {
            &&& (event == MachineEvent::SpawnFailed && m.state == SupervisorState::Starting) || (
            event matches MachineEvent::ChildExited(class) && class is Crash && (m.state
                == SupervisorState::Starting || m.state == SupervisorState::Running))
            &&& m.failures + 1 >= m.backoff.budget
        },
{
}

/// Whatever degrades a machine, the reason is one that the event itself gives:
/// the fault's own, the lost backend, or the spent budget.
pub proof fn degradations_are_explained(m: Machine, event: MachineEvent)
    requires
        m.state != SupervisorState::Degraded,
        m.after(event).state == SupervisorState::Degraded,
    ensures
        match event {
            MachineEvent::Fault(reason) => m.after(event).reason == Some(reason),
            MachineEvent::OutputBackendLost => m.after(event).reason == Some(
                DegradedReason::OutputBackendUnavailable,
            ),
            MachineEvent::SpawnFailed => m.after(event).reason == Some(
                DegradedReason::RetryBudgetExhausted,
            ),
            MachineEvent::ChildExited(class) => class is Crash && m.after(event).reason == Some(
                DegradedReason::RetryBudgetExhausted,
            ),
            _ => false,
        },
{
}

/// A failed spawn, and a crash of a child that is starting or up, costs one
/// retry: with retries left the machine waits the delay of that retry, and with
/// none left it gives up and says so. Elsewhere both are old news.
pub proof fn failures_cost_a_retry(m: Machine, event: MachineEvent)
    requires
        event == MachineEvent::SpawnFailed || (event matches MachineEvent::ChildExited(class)
            && class is Crash),
    ensures
        ({
            let counted = m.state == SupervisorState::Starting || (m.state
                == SupervisorState::Running && event != MachineEvent::SpawnFailed);
            let n = if m.failures == u32::MAX {
                m.failures as int
            } else {
                m.failures + 1
            };
            &&& !counted ==> ignored(m, event)
            &&& counted ==> m.after(event).failures == n
            &&& counted && n >= m.backoff.budget ==> moves(
                m,
                event,
                SupervisorState::Degraded,
                Some(DegradedReason::RetryBudgetExhausted),
            ) && m.effects(event) == Seq::<Action>::empty()
            &&& counted && n < m.backoff.budget ==> moves(m, event, SupervisorState::Backoff, None)
                && m.effects(event) == seq![
                Action::ArmBackoff { delay_ms: m.backoff.delay((n - 1) as nat) as u64 },
            ]
        }),
{
}

/// Start brings up a child wherever none is being started or up, with a fresh
/// budget; a child that a degraded machine may still hold goes first.
pub proof fn start_brings_up_a_child(m: Machine)
    ensures
        ({
            let event = MachineEvent::Start;
            let up = m.state == SupervisorState::Starting || m.state == SupervisorState::Running;
            &&& up ==> ignored(m, event)
            &&& !up ==> moves(m, event, SupervisorState::Starting, None) && m.after(event).failures
                == 0
            &&& !up && m.state == SupervisorState::Degraded ==> m.effects(event) == seq![
                Action::StopChild,
                Action::SpawnChild,
            ]
            &&& !up && m.state != SupervisorState::Degraded ==> m.effects(event) == seq![
                Action::SpawnChild,
            ]
        }),
{
}

/// Restart replaces the child, and keeps the count of failures; it does not lift
/// a pause, nor disturb a start under way.
pub proof fn restart_replaces_the_child(m: Machine)
    ensures
        ({
            let event = MachineEvent::Restart;
            let held = m.state == SupervisorState::Running || m.state == SupervisorState::Degraded;
            let bare = m.state == SupervisorState::Stopped || m.state == SupervisorState::Backoff;
            &&& !held && !bare ==> ignored(m, event)
            &&& held || bare ==> moves(m, event, SupervisorState::Starting, None) && m.after(
                event,
            ).failures == m.failures
            &&& held ==> m.effects(event) == seq![Action::StopChild, Action::SpawnChild]
            &&& bare ==> m.effects(event) == seq![Action::SpawnChild]
        }),
{
}

/// Stop ends in `Stopped` from everywhere, and takes down any child that there
/// may be.
pub proof fn stop_takes_the_child_down(m: Machine)
    ensures
        ({
            let event = MachineEvent::Stop;
            let held = m.state == SupervisorState::Starting || m.state == SupervisorState::Running
                || m.state == SupervisorState::Degraded;
            &&& m.state == SupervisorState::Stopped ==> ignored(m, event)
            &&& m.state != SupervisorState::Stopped ==> moves(
                m,
                event,
                SupervisorState::Stopped,
                None,
            ) && m.after(event).failures == m.failures
            &&& held ==> m.effects(event) == seq![Action::StopChild]
            &&& !held ==> m.effects(event) == Seq::<Action>::empty()
        }),
{
}

/// Pause takes a running child down and resume brings it back, with a fresh
/// budget; from any other state neither does anything.
pub proof fn pause_and_resume(m: Machine)
    ensures
        ({
            let running = m.state == SupervisorState::Running;
            &&& running ==> moves(m, MachineEvent::Pause, SupervisorState::Paused, None) && m.after(
                MachineEvent::Pause,
            ).failures == m.failures && m.effects(MachineEvent::Pause) == seq![Action::StopChild]
            &&& !running ==> ignored(m, MachineEvent::Pause)
        }),
        ({
            let paused = m.state == SupervisorState::Paused;
            &&& paused ==> moves(m, MachineEvent::Resume, SupervisorState::Starting, None)
                && m.after(MachineEvent::Resume).failures == 0 && m.effects(MachineEvent::Resume)
                == seq![Action::SpawnChild]
            &&& !paused ==> ignored(m, MachineEvent::Resume)
        }),
{
}

/// A spawn that succeeded makes a starting machine run, under the healthy-window
/// timer, and changes nothing else; so does a backend that came back.
pub proof fn ways_into_running(m: Machine, event: MachineEvent)
    requires
        m.state != SupervisorState::Running,
        m.after(event).state == SupervisorState::Running,
    ensures
        event == MachineEvent::SpawnSucceeded && m.state == SupervisorState::Starting || event
            == MachineEvent::OutputBackendRecovered && m.state == SupervisorState::Degraded
            && m.reason == Some(DegradedReason::OutputBackendUnavailable),
        moves(m, event, SupervisorState::Running, None),
        m.after(event).failures == m.failures,
        m.effects(event) == seq![Action::ArmHealthyTimer],
{
}

/// The child's own news, and the timers, count only where they are waited for.
pub proof fn news_counts_where_awaited(m: Machine)
    ensures
        m.state == SupervisorState::Starting ==> moves(
            m,
            MachineEvent::SpawnSucceeded,
            SupervisorState::Running,
            None,
        ),
        m.state != SupervisorState::Starting ==> ignored(m, MachineEvent::SpawnSucceeded),
        m.state == SupervisorState::Backoff ==> moves(
            m,
            MachineEvent::BackoffElapsed,
            SupervisorState::Starting,
            None,
        ) && m.after(MachineEvent::BackoffElapsed).failures == m.failures && m.effects(
            MachineEvent::BackoffElapsed,
        ) == seq![Action::SpawnChild],
        m.state != SupervisorState::Backoff ==> ignored(m, MachineEvent::BackoffElapsed),
        m.state == SupervisorState::Running ==> m.after(MachineEvent::HealthyElapsed) == (Machine {
            failures: 0,
            ..m
        }),
        m.change(MachineEvent::HealthyElapsed) is None,
        m.effects(MachineEvent::HealthyElapsed) == Seq::<Action>::empty(),
        m.state != SupervisorState::Running ==> ignored(m, MachineEvent::HealthyElapsed),
        ignored(m, MachineEvent::ChildExited(ExitClass::Requested)),
        m.state != SupervisorState::Running ==> ignored(m, MachineEvent::OutputBackendLost),
        m.state == SupervisorState::Running ==> moves(
            m,
            MachineEvent::OutputBackendLost,
            SupervisorState::Degraded,
            Some(DegradedReason::OutputBackendUnavailable),
        ) && m.after(MachineEvent::OutputBackendLost).failures == m.failures && m.effects(
            MachineEvent::OutputBackendLost,
        ) == Seq::<Action>::empty(),
        m.state == SupervisorState::Starting || m.state == SupervisorState::Running ==> moves(
            m,
            MachineEvent::ChildExited(ExitClass::PanicEscape),
            SupervisorState::Stopped,
            None,
        ),
{
}

} // verus!
