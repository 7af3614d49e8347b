//! The setup steps.

use kanatabar::doctor::{checks, ALL_CHECKS, SETUP_CHECKS};
use kanatabar::ipc::DoctorCheck;
use kanatabar::state::DegradedReason;
use kanatabar::vhidd::MANAGER_BINARY;
use kanatabar::wizard::{
    check_for_degraded_reason, first_unsatisfied, first_unsatisfied_index, panes,
    step_index_for_check, steps, KARABINER_DRIVER_URL, STEP_COUNT,
};

fn check(name: &str, ok: bool) -> DoctorCheck {
    DoctorCheck {
        name: name.to_string(),
        ok,
        detail: String::new(),
        fix_hint: None,
    }
}

#[test]
fn steps_are_non_empty_and_ordered_from_driver_to_verify() {
    let steps = steps();
    assert!(steps.len() >= 5);
    assert_eq!(steps.first().unwrap().title, "Install the Karabiner driver");
    assert_eq!(steps.last().unwrap().title, "Verify");
}

#[test]
fn every_step_check_is_a_real_doctor_check() {
    // The wizard must reference the single source of check names, or a
    // renamed check would silently stop verifying a step.
    for step in steps() {
        if let Some(name) = step.verifies {
            assert!(
                ALL_CHECKS.contains(&name),
                "step {:?} verifies unknown check {name}",
                step.title
            );
        }
    }
}

#[test]
fn first_unsatisfied_points_at_the_earliest_failing_step() {
    // Pkg not installed (no manager app) → both driver checks fail, and the
    // *install* step (verifies DRIVER_PRESENT) is the first failing one.
    let checks = [
        check(checks::DRIVER_PRESENT, false),
        check(checks::DRIVER, false),
        check(checks::DAEMON, false),
    ];
    assert_eq!(
        first_unsatisfied(&checks, None).unwrap().title,
        "Install the Karabiner driver"
    );

    // Pkg present but not activated/approved → DRIVER_PRESENT passes, so the
    // install step is satisfied and the wizard advances to the *activate*
    // step (verifies DRIVER).
    let checks = [
        check(checks::DRIVER_PRESENT, true),
        check(checks::DRIVER_VERSION, true),
        check(checks::DRIVER, false),
    ];
    assert_eq!(
        first_unsatisfied(&checks, None).unwrap().title,
        "Activate & approve the extension"
    );

    // Driver ok but the service isn't installed → the install step.
    let checks = [
        check(checks::DRIVER_PRESENT, true),
        check(checks::DRIVER, true),
        check(checks::INPUT_MONITORING, true),
        check(checks::DAEMON, false),
    ];
    assert_eq!(
        first_unsatisfied(&checks, None).unwrap().title,
        "Install the KanataBar service"
    );

    // Everything green → nothing to do.
    let checks = ALL_CHECKS.map(|name| check(name, true));
    assert_eq!(first_unsatisfied(&checks, None), None);
}

#[test]
fn a_runtime_degradation_overrides_a_green_checklist() {
    // Every static check green while the supervisor
    // sits in Degraded{InputMonitoringDenied} — the wizard must jump to the
    // grant step, not congratulate the user. (The static permission check
    // can read a definitive denial now, but the behavioral degraded reason
    // is still the runtime backstop when the static read is indeterminate.)
    let checks = ALL_CHECKS.map(|name| check(name, true));
    assert_eq!(
        first_unsatisfied(&checks, Some(DegradedReason::InputMonitoringDenied))
            .unwrap()
            .title,
        "Grant Input Monitoring"
    );

    // Same for a driver deactivated behind a green pkg-present check.
    assert_eq!(
        first_unsatisfied(&checks, Some(DegradedReason::DriverNotActivated))
            .unwrap()
            .title,
        "Activate & approve the extension"
    );

    // Reasons with no setup step leave a green checklist green.
    assert_eq!(
        first_unsatisfied(&checks, Some(DegradedReason::RetryBudgetExhausted)),
        None
    );
}

#[test]
fn every_setup_check_maps_back_to_a_step() {
    // The doctor window's delegation relies on the inversion covering
    // every setup-class check.
    for name in SETUP_CHECKS {
        let idx = step_index_for_check(name)
            .unwrap_or_else(|| panic!("setup check {name} has no wizard step"));
        assert_eq!(steps()[idx].verifies, Some(name));
    }
    assert_eq!(step_index_for_check("no such check"), None);
}

#[test]
fn sudo_steps_carry_a_copyable_command_and_never_a_run() {
    // The tray never elevates — anything needing sudo
    // is copyable text, and a step that runs something never needs sudo.
    for step in steps() {
        if let Some(copy) = step.copy {
            assert!(copy.starts_with("sudo "), "copy is for sudo commands");
            assert!(step.run.is_none(), "{:?} both runs and copies", step.title);
        }
    }
    let installs: Vec<&str> = steps().iter().filter_map(|s| s.copy).collect();
    assert_eq!(
        installs,
        ["sudo kanatactl install", "sudo kanatactl install"]
    );
}

#[test]
fn every_mapped_degraded_reason_names_a_real_doctor_check() {
    for reason in [
        DegradedReason::InputMonitoringDenied,
        DegradedReason::DriverNotActivated,
        DegradedReason::VhidDaemonDown,
        DegradedReason::KanataBinMissing,
        DegradedReason::ConfigBroken,
    ] {
        let name = check_for_degraded_reason(reason).expect("mapped");
        assert!(ALL_CHECKS.contains(&name), "{reason:?} → unknown {name}");
    }
}

#[test]
fn activate_step_runs_the_documented_manager_command() {
    // Activation is `<manager> activate`, no sudo, in the user's session — exactly what
    // the tray runs.
    let step = steps()
        .into_iter()
        .find(|s| s.title == "Activate & approve the extension")
        .expect("activate step exists");
    let argv = step.run.expect("activate step runs the manager");
    assert_eq!(
        argv,
        [MANAGER_BINARY, "activate"],
        "must match the pqrs-documented activation invocation"
    );
    assert!(
        argv[0].starts_with("/Applications/.Karabiner-VirtualHIDDevice-Manager.app/"),
        "manager lives (hidden) in /Applications: {}",
        argv[0]
    );
    // No other step runs a command; every run target is an absolute path.
    for step in steps() {
        if let Some(argv) = step.run {
            assert!(argv[0].starts_with('/'), "run must be absolute: {argv:?}");
        }
    }
}

#[test]
fn panes_and_url_are_openable_schemes() {
    assert!(panes::EXTENSIONS.starts_with("x-apple.systempreferences:"));
    assert!(panes::INPUT_MONITORING.starts_with("x-apple.systempreferences:"));
    assert!(KARABINER_DRIVER_URL.starts_with("https://"));
    // Every step that declares an `open` target uses one of them.
    for step in steps() {
        if let Some(url) = step.open {
            assert!(
                url.starts_with("x-apple.systempreferences:") || url.starts_with("https://"),
                "step {:?} has a non-openable target {url}",
                step.title
            );
        }
    }
}

/// A step is skipped only where its check passes, and the count starts over
/// from the first.
#[test]
fn indices_follow_the_table() {
    assert_eq!(steps().len(), STEP_COUNT);
    assert_eq!(first_unsatisfied_index(&[check(checks::VHID_MANAGED, false)], None), Some(3));
    assert_eq!(first_unsatisfied_index(&[], None), None);
    assert_eq!(
        first_unsatisfied_index(&[], Some(DegradedReason::InputMonitoringDenied)),
        Some(4)
    );
    assert_eq!(check_for_degraded_reason(DegradedReason::TcpPortConflict), None);
}
