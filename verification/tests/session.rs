//! The tray's picture of the daemon, and how it follows the event stream.

use kanatabar::backoff::BackoffConfig;
use kanatabar::conn::{
    model_update, on_disconnect, on_event, on_presets, seeded, Update,
};
use kanatabar::ipc::{ErrorKind, Event, PresetInfo, Status};
use kanatabar::model::IconKind;
use kanatabar::reconnect::Reconnector;
use kanatabar::session::Session;
use kanatabar::state::{DegradedReason, SupervisorState};

fn status(state: SupervisorState) -> Status {
    Status {
        state,
        active_preset: Some("main".into()),
        active_layer: Some("base".into()),
        kanata_pid: Some(42),
        kanata_version: Some("1.8.1".into()),
        driver_ok: Some(true),
        last_error: None,
        degraded_reason: None,
        passthrough: false,
        uptime_s: 1,
        daemon_version: "0.1.0".into(),
    }
}

fn presets() -> Vec<PresetInfo> {
    vec![
        PresetInfo {
            name: "main".into(),
            config: "/main.kbd".into(),
            autostart: true,
            active: true,
        },
        PresetInfo {
            name: "gaming".into(),
            config: "/gaming.kbd".into(),
            autostart: false,
            active: false,
        },
    ]
}

#[test]
fn fresh_session_is_disconnected() {
    let s = Session::new();
    assert!(!s.is_live());
    assert!(!s.menu_model().connected);
}

#[test]
fn events_before_seeding_are_ignored() {
    let mut s = Session::new();
    s.apply_event(&Event::LayerChanged {
        layer: "nav".into(),
    });
    assert!(!s.is_live());
}

#[test]
fn seeding_makes_it_live() {
    let mut s = Session::new();
    s.set_status(status(SupervisorState::Running));
    s.set_presets(presets());
    assert!(s.is_live());
    let model = s.menu_model();
    assert!(model.connected);
    assert_eq!(model.presets.len(), 2);
}

#[test]
fn state_change_event_updates_the_model() {
    let mut s = Session::new();
    s.set_status(status(SupervisorState::Running));
    s.apply_event(&Event::StateChanged {
        from: SupervisorState::Running,
        to: SupervisorState::Paused,
        reason: None,
    });
    assert_eq!(s.menu_model().icon, IconKind::Paused);
}

#[test]
fn entering_degraded_surfaces_the_reason_in_the_state_line() {
    let mut s = Session::new();
    s.set_status(status(SupervisorState::Running));
    s.apply_event(&Event::StateChanged {
        from: SupervisorState::Backoff,
        to: SupervisorState::Degraded,
        reason: Some(DegradedReason::DriverNotActivated),
    });
    assert_eq!(
        s.menu_model().state_line,
        format!(
            "Degraded — {}",
            DegradedReason::DriverNotActivated.describe()
        )
    );
}

#[test]
fn recovering_from_degraded_clears_the_error() {
    let mut s = Session::new();
    s.set_status(status(SupervisorState::Degraded));
    s.apply_event(&Event::StateChanged {
        from: SupervisorState::Backoff,
        to: SupervisorState::Degraded,
        reason: Some(DegradedReason::RetryBudgetExhausted),
    });
    s.apply_event(&Event::StateChanged {
        from: SupervisorState::Starting,
        to: SupervisorState::Running,
        reason: None,
    });
    assert_eq!(s.menu_model().state_line, "State: Running");
}

#[test]
fn layer_change_event_updates_the_layer_line() {
    let mut s = Session::new();
    s.set_status(status(SupervisorState::Running));
    s.apply_event(&Event::LayerChanged {
        layer: "nav".into(),
    });
    assert_eq!(s.menu_model().layer_line, Some("Layer: nav".to_string()));
}

#[test]
fn config_applied_moves_the_active_checkmark() {
    let mut s = Session::new();
    s.set_status(status(SupervisorState::Running));
    s.set_presets(presets());
    s.apply_event(&Event::ConfigApplied {
        preset: Some("gaming".into()),
        path: "/gaming.kbd".into(),
    });
    let active: Vec<_> = s
        .menu_model()
        .presets
        .into_iter()
        .filter(|p| p.active)
        .map(|p| p.name)
        .collect();
    assert_eq!(active, vec!["gaming".to_string()]);
}

#[test]
fn driver_issue_event_records_the_message() {
    let mut s = Session::new();
    s.set_status(status(SupervisorState::Running));
    s.apply_event(&Event::DriverIssue {
        kind: ErrorKind::VhidDaemonDown,
        message: "VHID daemon down".into(),
    });
    // Once Degraded follows, the state line shows the recorded message
    // rather than the generic fallback.
    s.apply_event(&Event::StateChanged {
        from: SupervisorState::Running,
        to: SupervisorState::Degraded,
        reason: None,
    });
    assert_eq!(s.menu_model().state_line, "Degraded — VHID daemon down");
}

#[test]
fn disconnect_drops_the_snapshot() {
    let mut s = Session::new();
    s.set_status(status(SupervisorState::Running));
    s.set_presets(presets());
    s.disconnect();
    assert!(!s.is_live());
    assert!(!s.menu_model().connected);
    assert!(s.menu_model().presets.is_empty());
}

fn cfg() -> BackoffConfig {
    BackoffConfig {
        base_ms: 100,
        cap_ms: 800,
        budget: 5,
        reset_after_s: 60,
    }
}

#[test]
fn delays_double_then_cap() {
    let mut r = Reconnector::new(cfg());
    let got: Vec<u64> = (0..5).map(|_| r.next_delay()).collect();
    assert_eq!(got, vec![100, 200, 400, 800, 800]);
}

#[test]
fn reset_starts_over() {
    let mut r = Reconnector::new(cfg());
    r.next_delay();
    r.next_delay();
    r.reset();
    assert_eq!(r.next_delay(), 100);
}

/// A live stream, from seeding to the loss of the connection.
#[test]
fn the_stream_is_followed_step_by_step() {
    let mut s = seeded(status(SupervisorState::Running), presets());
    assert!(s.is_live());
    assert!(matches!(model_update(&s), Update::Model(m) if m.state_line == "State: Running"));

    let step = on_event(
        &mut s,
        &Event::StateChanged {
            from: SupervisorState::Running,
            to: SupervisorState::Degraded,
            reason: Some(DegradedReason::VhidDaemonDown),
        },
    );
    assert!(!step.refetch_presets);
    assert_eq!(step.updates.len(), 2);
    let body = DegradedReason::VhidDaemonDown.describe();
    assert!(step
        .updates
        .iter()
        .any(|u| matches!(u, Update::Notify { title, body: b } if title == "KanataBar — Degraded" && b == body)));
    assert!(step
        .updates
        .iter()
        .any(|u| matches!(u, Update::Model(m) if m.icon == IconKind::Degraded)));

    let step = on_event(
        &mut s,
        &Event::DeviceChanged {
            added: true,
            name: "K2".into(),
        },
    );
    assert!(step.updates.iter().any(|u| matches!(u, Update::DevicesChanged)));

    assert!(on_event(&mut s, &Event::PresetsChanged).refetch_presets);
    let update = on_presets(&mut s, vec![]);
    assert!(matches!(update, Update::Model(m) if m.presets.is_empty()));
}

#[test]
fn a_lost_connection_backs_off_and_a_good_one_starts_over() {
    let mut r = Reconnector::new(cfg());
    let (update, wait) = on_disconnect(&mut r, false);
    assert!(matches!(update, Update::Model(m) if !m.connected));
    assert_eq!(wait, 100);
    assert_eq!(on_disconnect(&mut r, false).1, 200);
    assert_eq!(on_disconnect(&mut r, true).1, 100);
    assert_eq!(Reconnector::default().next_delay(), 1000);
}
