//! The supervisor state machine.

use kanatabar::backoff::BackoffConfig;
use kanatabar::machine::{Action, Machine, MachineEvent, StateChanged};
use kanatabar::state::{DegradedReason, ExitClass, SupervisorState};

type A = Action;
type E = MachineEvent;
type S = SupervisorState;

fn machine_in(state: S, failures: u32) -> Machine {
    let mut m = Machine::new(BackoffConfig::default());
    m.state = state;
    m.failures = failures;
    m
}

fn crash() -> E {
    E::ChildExited(ExitClass::Crash {
        code: Some(1),
        signal: None,
    })
}

/// The transition table plus edge cases.
#[test]
fn transition_table() {
    let cases: Vec<(&str, S, u32, E, S, Vec<A>)> = vec![
        // (name, start state, failures, event, expected state, expected actions)
        (
            "stopped: start spawns",
            S::Stopped,
            0,
            E::Start,
            S::Starting,
            vec![A::SpawnChild],
        ),
        (
            "stopped: stop is a no-op",
            S::Stopped,
            0,
            E::Stop,
            S::Stopped,
            vec![],
        ),
        (
            "stopped: pause is a no-op",
            S::Stopped,
            0,
            E::Pause,
            S::Stopped,
            vec![],
        ),
        (
            "starting: spawn ok arms healthy timer",
            S::Starting,
            0,
            E::SpawnSucceeded,
            S::Running,
            vec![A::ArmHealthyTimer],
        ),
        (
            "starting: spawn failure backs off",
            S::Starting,
            0,
            E::SpawnFailed,
            S::Backoff,
            vec![A::ArmBackoff { delay_ms: 1000 }],
        ),
        (
            "starting: crash during start backs off",
            S::Starting,
            0,
            crash(),
            S::Backoff,
            vec![A::ArmBackoff { delay_ms: 1000 }],
        ),
        (
            "starting: stop kills in-flight child",
            S::Starting,
            0,
            E::Stop,
            S::Stopped,
            vec![A::StopChild],
        ),
        (
            "starting: preflight fault degrades",
            S::Starting,
            0,
            E::Fault(DegradedReason::ConfigBroken),
            S::Degraded,
            vec![],
        ),
        (
            "starting: missing binary degrades",
            S::Starting,
            0,
            E::Fault(DegradedReason::KanataBinMissing),
            S::Degraded,
            vec![],
        ),
        (
            "running: crash backs off with doubled delay",
            S::Running,
            1,
            crash(),
            S::Backoff,
            vec![A::ArmBackoff { delay_ms: 2000 }],
        ),
        (
            "running: crash spends the budget",
            S::Running,
            4,
            crash(),
            S::Degraded,
            vec![],
        ),
        (
            "running: panic escape stops, no backoff",
            S::Running,
            3,
            E::ChildExited(ExitClass::PanicEscape),
            S::Stopped,
            vec![],
        ),
        (
            "running: requested exit ignored",
            S::Running,
            0,
            E::ChildExited(ExitClass::Requested),
            S::Running,
            vec![],
        ),
        (
            "running: restart stops then respawns",
            S::Running,
            0,
            E::Restart,
            S::Starting,
            vec![A::StopChild, A::SpawnChild],
        ),
        (
            "running: stop kills child",
            S::Running,
            0,
            E::Stop,
            S::Stopped,
            vec![A::StopChild],
        ),
        (
            "running: pause kills child",
            S::Running,
            0,
            E::Pause,
            S::Paused,
            vec![A::StopChild],
        ),
        (
            "running: fault stops child and degrades",
            S::Running,
            0,
            E::Fault(DegradedReason::VhidDaemonDown),
            S::Degraded,
            vec![A::StopChild],
        ),
        (
            "running: stale backoff timer ignored",
            S::Running,
            0,
            E::BackoffElapsed,
            S::Running,
            vec![],
        ),
        (
            "backoff: timer fires, retry",
            S::Backoff,
            2,
            E::BackoffElapsed,
            S::Starting,
            vec![A::SpawnChild],
        ),
        (
            "backoff: user start retries immediately",
            S::Backoff,
            2,
            E::Start,
            S::Starting,
            vec![A::SpawnChild],
        ),
        (
            "backoff: restart retries immediately",
            S::Backoff,
            2,
            E::Restart,
            S::Starting,
            vec![A::SpawnChild],
        ),
        (
            "backoff: stop cancels recovery",
            S::Backoff,
            2,
            E::Stop,
            S::Stopped,
            vec![],
        ),
        (
            "backoff: crash of straggler ignored",
            S::Backoff,
            2,
            crash(),
            S::Backoff,
            vec![],
        ),
        // Degraded may hold a live child (backend-unavailable), so every
        // exit from it stops the child first — StopChild is a no-op when
        // no child exists, and skipping it would break single-instance.
        (
            "degraded: user start recovers",
            S::Degraded,
            5,
            E::Start,
            S::Starting,
            vec![A::StopChild, A::SpawnChild],
        ),
        (
            "degraded: user restart recovers",
            S::Degraded,
            5,
            E::Restart,
            S::Starting,
            vec![A::StopChild, A::SpawnChild],
        ),
        (
            "degraded: stop clears",
            S::Degraded,
            5,
            E::Stop,
            S::Stopped,
            vec![A::StopChild],
        ),
        (
            "running: backend lost degrades but keeps the child",
            S::Running,
            0,
            E::OutputBackendLost,
            S::Degraded,
            vec![],
        ),
        (
            "stopped: stale backend-lost ignored",
            S::Stopped,
            0,
            E::OutputBackendLost,
            S::Stopped,
            vec![],
        ),
        (
            "running: stale backend-recovery ignored",
            S::Running,
            0,
            E::OutputBackendRecovered,
            S::Running,
            vec![],
        ),
        (
            "degraded: healthy timer ignored",
            S::Degraded,
            5,
            E::HealthyElapsed,
            S::Degraded,
            vec![],
        ),
        (
            "paused: resume respawns",
            S::Paused,
            0,
            E::Resume,
            S::Starting,
            vec![A::SpawnChild],
        ),
        (
            "paused: start also respawns",
            S::Paused,
            0,
            E::Start,
            S::Starting,
            vec![A::SpawnChild],
        ),
        (
            "paused: stop settles to stopped",
            S::Paused,
            0,
            E::Stop,
            S::Stopped,
            vec![],
        ),
        (
            "paused: pause again is a no-op",
            S::Paused,
            0,
            E::Pause,
            S::Paused,
            vec![],
        ),
    ];

    for (name, start, failures, event, want_state, want_actions) in cases {
        let mut m = machine_in(start, failures);
        let out = m.handle(event);
        assert_eq!(m.state(), want_state, "state after: {name}");
        assert_eq!(out.actions, want_actions, "actions of: {name}");
        let changed = start != want_state;
        assert_eq!(out.transition.is_some(), changed, "transition of: {name}");
        if let Some(t) = out.transition {
            assert_eq!((t.from, t.to), (start, want_state), "from/to of: {name}");
        }
    }
}

#[test]
fn crash_loop_walks_backoff_ladder_then_degrades() {
    let mut m = Machine::new(BackoffConfig::default());
    assert!(m.handle(E::Start).transition.is_some());

    let mut delays = Vec::new();
    loop {
        m.handle(E::SpawnSucceeded);
        let out = m.handle(crash());
        match m.state() {
            S::Backoff => {
                let [A::ArmBackoff { delay_ms }] = out.actions[..] else {
                    panic!("expected ArmBackoff, got {:?}", out.actions);
                };
                delays.push(delay_ms);
                m.handle(E::BackoffElapsed);
            }
            S::Degraded => break,
            other => panic!("unexpected state {other:?}"),
        }
    }
    // Budget 5: four backoffs on the doubling ladder, then Degraded.
    assert_eq!(delays, vec![1000, 2000, 4000, 8000]);
    assert_eq!(
        m.degraded_reason(),
        Some(DegradedReason::RetryBudgetExhausted)
    );
}

#[test]
fn healthy_window_resets_budget() {
    let mut m = machine_in(S::Running, 4);
    let out = m.handle(E::HealthyElapsed);
    assert!(out.transition.is_none());
    assert_eq!(m.failures(), 0);
    // The next crash starts a fresh ladder instead of degrading.
    let out = m.handle(crash());
    assert_eq!(m.state(), S::Backoff);
    assert_eq!(out.actions, vec![A::ArmBackoff { delay_ms: 1000 }]);
}

#[test]
fn user_start_from_degraded_grants_fresh_budget() {
    let mut m = machine_in(S::Degraded, 5);
    m.reason = Some(DegradedReason::RetryBudgetExhausted);
    m.handle(E::Start);
    assert_eq!(m.failures(), 0);
    assert_eq!(m.degraded_reason(), None);
    // One crash after recovery must back off, not instantly re-degrade.
    m.handle(E::SpawnSucceeded);
    m.handle(crash());
    assert_eq!(m.state(), S::Backoff);
}

/// The backend round trip: lost →
/// Degraded with the child kept, recovered → Running with no respawn.
#[test]
fn backend_lost_then_recovered_round_trips_without_respawn() {
    let mut m = machine_in(S::Running, 2);
    let out = m.handle(E::OutputBackendLost);
    assert_eq!(m.state(), S::Degraded);
    assert_eq!(
        m.degraded_reason(),
        Some(DegradedReason::OutputBackendUnavailable)
    );
    // No StopChild: kanata retries the backend itself.
    assert_eq!(out.actions, vec![]);

    let out = m.handle(E::OutputBackendRecovered);
    assert_eq!(m.state(), S::Running);
    assert_eq!(m.degraded_reason(), None);
    // No SpawnChild either — same child, remapping resumed.
    assert_eq!(out.actions, vec![A::ArmHealthyTimer]);
    // The failure budget is untouched by the round trip (not a crash).
    assert_eq!(m.failures(), 2);
}

/// A recovery line must not lift a Degraded caused by something else
/// (e.g. RetryBudgetExhausted) — only the backend reason round-trips.
#[test]
fn backend_recovery_only_lifts_backend_degraded() {
    let mut m = machine_in(S::Degraded, 5);
    m.reason = Some(DegradedReason::RetryBudgetExhausted);
    let out = m.handle(E::OutputBackendRecovered);
    assert!(out.transition.is_none());
    assert_eq!(m.state(), S::Degraded);
    assert_eq!(
        m.degraded_reason(),
        Some(DegradedReason::RetryBudgetExhausted)
    );
}

#[test]
fn degraded_reason_survives_only_in_degraded() {
    let mut m = machine_in(S::Starting, 0);
    m.handle(E::Fault(DegradedReason::ConfigBroken));
    assert_eq!(m.degraded_reason(), Some(DegradedReason::ConfigBroken));
    m.handle(E::Start);
    assert_eq!(m.degraded_reason(), None);
}

/// Every sequence of events up to a length, from the initial state: the child
/// that the actions leave alive is never doubled, and a reason is held exactly
/// in `Degraded`.
#[test]
fn short_runs_never_hold_two_children() {
    let events = [
        E::Start,
        E::Stop,
        E::Restart,
        E::Pause,
        E::Resume,
        E::SpawnSucceeded,
        E::Fault(DegradedReason::VhidDaemonDown),
        E::OutputBackendLost,
        E::OutputBackendRecovered,
        E::BackoffElapsed,
    ];
    for a in events {
        for b in events {
            for c in events {
                for d in events {
                    let mut m = Machine::new(BackoffConfig::default());
                    let mut alive = false;
                    for event in [a, b, c, d] {
                        for action in m.handle(event).actions {
                            match action {
                                A::SpawnChild => {
                                    assert!(!alive, "second child after {a:?} {b:?} {c:?} {d:?}");
                                    alive = true;
                                }
                                A::StopChild => alive = false,
                                A::ArmBackoff { .. } | A::ArmHealthyTimer => {}
                            }
                        }
                        assert_eq!(m.degraded_reason().is_some(), m.state() == S::Degraded);
                    }
                }
            }
        }
    }
}

#[test]
fn panic_escape_settles_and_keeps_no_timer() {
    let mut m = machine_in(S::Running, 0);
    let out = m.handle(E::ChildExited(ExitClass::PanicEscape));
    assert_eq!(m.state(), S::Stopped);
    assert!(out.actions.is_empty());
    assert_eq!(
        out.transition,
        Some(StateChanged {
            from: S::Running,
            to: S::Stopped,
            reason: None,
        })
    );
}
