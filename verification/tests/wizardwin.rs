//! The setup window.

use kanatabar::doctor::{checks, ALL_CHECKS};
use kanatabar::ipc::DoctorCheck;
use kanatabar::state::DegradedReason;
use kanatabar::wizard::steps;
use kanatabar::wizardwin::{daemon_unreachable_checks, view, Completion, StepState};

fn check(name: &str, ok: bool) -> DoctorCheck {
    DoctorCheck {
        name: name.to_string(),
        ok,
        detail: String::new(),
        fix_hint: None,
    }
}

#[test]
fn first_failing_step_is_current_with_its_actions() {
    // Driver pkg present but not activated → the activate step (index 2)
    // is current; it has a run command and a Settings pane, no sudo copy.
    let checks = [
        check(checks::DRIVER_PRESENT, true),
        check(checks::DRIVER_VERSION, true),
        check(checks::DRIVER, false),
    ];
    let view = view(&checks, None, None);
    assert_eq!(view.summary, "Step 3 of 8");
    assert!(!view.done && view.completion.is_none());
    let current = &view.rows[2];
    assert_eq!(current.state, StepState::Current);
    assert!(current.can_run);
    assert_eq!(current.open_label.as_deref(), Some("Open System Settings"));
    assert_eq!(current.copy, None);
    assert_eq!(view.rows[0].state, StepState::Done);
    assert_eq!(view.rows[3].state, StepState::Pending);
    // Collapsed rows carry no actions.
    assert!(!view.rows[3].can_run && view.rows[3].open_label.is_none());
}

#[test]
fn sudo_step_renders_copyable_command_not_a_run_button() {
    let checks = [check(checks::VHID_MANAGED, false)];
    let view = view(&checks, None, None);
    let current = view
        .rows
        .iter()
        .find(|r| r.state == StepState::Current)
        .expect("current");
    assert_eq!(current.copy.as_deref(), Some("sudo kanatactl install"));
    assert!(!current.can_run, "sudo is never a button");
}

#[test]
fn grant_steps_open_their_pane_and_never_run_anything() {
    // The grant steps' only action is opening the right Settings pane —
    // the daemon's TCC request APIs register nothing from
    // the system context, so there is no "do it for me" for permissions;
    // the instruction teaches the manual +/path route.
    let im = view(&[check(checks::INPUT_MONITORING, false)], None, None);
    let current = im
        .rows
        .iter()
        .find(|r| r.state == StepState::Current)
        .expect("current");
    assert_eq!(current.title, "Grant Input Monitoring");
    assert!(!current.can_run);
    assert_eq!(current.open_label.as_deref(), Some("Open System Settings"));
}

#[test]
fn degradation_overrides_green_and_completion_renders_when_done() {
    let all_green: Vec<DoctorCheck> = ALL_CHECKS.map(|n| check(n, true)).to_vec();
    // Green checklist + Degraded{InputMonitoringDenied} → the
    // grant step is current, not the congratulation.
    let view_degraded = view(
        &all_green,
        Some(DegradedReason::InputMonitoringDenied),
        None,
    );
    assert!(!view_degraded.done);
    assert_eq!(
        view_degraded.rows[4].state,
        StepState::Current,
        "grant step current"
    );
    // Truly done: every row Done, the supplied completion rendered.
    let supplied = Completion {
        message: "Add a preset to start.".to_string(),
        command: Some("kanatactl preset add main ~/.config/kanata/main.kbd".to_string()),
    };
    let view_done = view(&all_green, None, Some(supplied.clone()));
    assert!(view_done.done);
    assert_eq!(view_done.summary, "Setup complete");
    assert_eq!(view_done.completion, Some(supplied));
    assert!(view_done.rows.iter().all(|r| r.state == StepState::Done));
    // Done with no caller-supplied completion: the default message, no chip.
    let view_default = view(&all_green, None, None);
    assert_eq!(
        view_default.completion,
        Some(Completion {
            message: "All checks passed — you're set up.".to_string(),
            command: None,
        })
    );
}

#[test]
fn unreachable_daemon_lands_on_the_install_step() {
    let checks = daemon_unreachable_checks("connect refused");
    let view = view(&checks, None, None);
    let current = view
        .rows
        .iter()
        .find(|r| r.state == StepState::Current)
        .expect("current");
    assert_eq!(current.title, "Install the KanataBar service");
    assert_eq!(current.copy.as_deref(), Some("sudo kanatactl install"));
}


/// The current row, field by field.
#[test]
fn the_current_row_carries_the_step() {
    let view = view(&[check(checks::VHID_MANAGED, false)], None, None);
    assert_eq!(view.summary, "Step 4 of 8");
    let row = &view.rows[3];
    assert_eq!(row.index, 3);
    assert_eq!(row.title, "Keep the VHID daemon running");
    assert_eq!(row.instruction, steps()[3].instruction);
    assert_eq!(row.state, StepState::Current);
    assert_eq!(row.open_label, None);
    assert_eq!(view.rows[4].state, StepState::Pending);
}
