//! What the menu shows of a status.

use kanatabar::backoff::BackoffConfig;
use kanatabar::ipc::{negotiate, PresetInfo, Status};
use kanatabar::machine::{Machine, MachineEvent};
use kanatabar::model::{state_line, Capabilities, IconKind, MenuModel, PresetEntry};
use kanatabar::state::SupervisorState;
use kanatabar::PROTOCOL_VERSION;

fn status(state: SupervisorState) -> Status {
    Status {
        state,
        active_preset: None,
        active_layer: None,
        kanata_pid: None,
        kanata_version: None,
        driver_ok: None,
        last_error: None,
        degraded_reason: None,
        passthrough: false,
        uptime_s: 0,
        daemon_version: "0.1.0".to_string(),
    }
}

#[test]
fn degraded_state_line_is_truncated_so_the_menu_stays_narrow() {
    // A long degraded reason would stretch the menu across the screen.
    let long = "kanata cannot reach its virtual-keyboard output — keys are NOT remapped. \
                Likely a Karabiner driver version mismatch: install the driver pkg named in \
                your kanata release notes, then approve it and Restart";
    let mut s = status(SupervisorState::Degraded);
    s.last_error = Some(long.to_string());
    let line = state_line(&s);
    assert!(line.starts_with("Degraded — "));
    assert!(line.chars().count() < 80, "menu line too long: {line:?}");
    // A short reason passes through intact (no ellipsis).
    let mut s2 = status(SupervisorState::Degraded);
    s2.last_error = Some("VHID daemon is not running".to_string());
    assert_eq!(state_line(&s2), "Degraded — VHID daemon is not running");
}

#[test]
fn icon_covers_the_four_spec_states_plus_idle() {
    assert_eq!(
        IconKind::for_state(SupervisorState::Running),
        IconKind::Running
    );
    assert_eq!(
        IconKind::for_state(SupervisorState::Paused),
        IconKind::Paused
    );
    assert_eq!(
        IconKind::for_state(SupervisorState::Degraded),
        IconKind::Degraded
    );
    for idle in [
        SupervisorState::Stopped,
        SupervisorState::Starting,
        SupervisorState::Backoff,
    ] {
        assert_eq!(IconKind::for_state(idle), IconKind::Idle, "{idle:?}");
    }
}

#[test]
fn capabilities_mirror_the_machine_transition_table() {
    let cases = [
        (
            SupervisorState::Stopped,
            Capabilities {
                start: true,
                stop: false,
                restart: true,
                pause: false,
                resume: false,
            },
        ),
        (
            SupervisorState::Starting,
            Capabilities {
                start: false,
                stop: true,
                restart: false,
                pause: false,
                resume: false,
            },
        ),
        (
            SupervisorState::Running,
            Capabilities {
                start: false,
                stop: true,
                restart: true,
                pause: true,
                resume: false,
            },
        ),
        (
            SupervisorState::Backoff,
            Capabilities {
                start: true,
                stop: true,
                restart: true,
                pause: false,
                resume: false,
            },
        ),
        (
            SupervisorState::Degraded,
            Capabilities {
                start: true,
                stop: true,
                restart: true,
                pause: false,
                resume: false,
            },
        ),
        (
            SupervisorState::Paused,
            Capabilities {
                start: true,
                stop: true,
                restart: false,
                pause: false,
                resume: true,
            },
        ),
    ];
    for (state, expected) in cases {
        assert_eq!(Capabilities::for_state(state), expected, "state {state:?}");
    }
}

#[test]
fn disconnected_disables_everything() {
    let model = MenuModel::disconnected();
    assert_eq!(model.icon, IconKind::Disconnected);
    assert!(!model.connected);
    assert_eq!(model.caps, Capabilities::default());
    assert!(model.presets.is_empty());
    assert!(model.layer_line.is_none());
}

#[test]
fn connected_shows_layer_line_only_when_known() {
    let mut s = status(SupervisorState::Running);
    assert_eq!(MenuModel::connected(&s, &[]).layer_line, None);
    s.active_layer = Some("nav".to_string());
    assert_eq!(
        MenuModel::connected(&s, &[]).layer_line,
        Some("Layer: nav".to_string())
    );
}

#[test]
fn degraded_state_line_carries_the_reason() {
    let mut s = status(SupervisorState::Degraded);
    s.last_error = Some("kanata keeps crashing".to_string());
    assert_eq!(
        MenuModel::connected(&s, &[]).state_line,
        "Degraded — kanata keeps crashing"
    );
}

#[test]
fn presets_carry_the_active_flag() {
    let presets = vec![
        PresetInfo {
            name: "main".into(),
            config: "/a.kbd".into(),
            autostart: true,
            active: true,
        },
        PresetInfo {
            name: "gaming".into(),
            config: "/b.kbd".into(),
            autostart: false,
            active: false,
        },
    ];
    let model = MenuModel::connected(&status(SupervisorState::Running), &presets);
    assert_eq!(
        model.presets,
        vec![
            PresetEntry {
                name: "main".into(),
                active: true
            },
            PresetEntry {
                name: "gaming".into(),
                active: false
            },
        ]
    );
}

#[test]
fn every_offered_command_is_one_the_machine_acts_on() {
    for state in [
        SupervisorState::Stopped,
        SupervisorState::Starting,
        SupervisorState::Running,
        SupervisorState::Backoff,
        SupervisorState::Degraded,
        SupervisorState::Paused,
    ] {
        let caps = Capabilities::for_state(state);
        for (offered, event) in [
            (caps.start, MachineEvent::Start),
            (caps.stop, MachineEvent::Stop),
            (caps.pause, MachineEvent::Pause),
            (caps.resume, MachineEvent::Resume),
        ] {
            let mut machine = Machine::new(BackoffConfig::default());
            machine.state = state;
            if offered {
                assert!(
                    machine.handle(event).transition.is_some(),
                    "{event:?} offered in {state:?}"
                );
            }
        }
    }
}

#[test]
fn negotiate_accepts_only_supported_version() {
    assert_eq!(negotiate(1, 1), Some(PROTOCOL_VERSION));
    assert_eq!(negotiate(1, 5), Some(PROTOCOL_VERSION));
    assert_eq!(negotiate(2, 5), None);
    assert_eq!(negotiate(0, 0), None);
}
