//! The health window.

use kanatabar::doctor::{checks, ALL_CHECKS};
use kanatabar::healthwin::{error, view};
use kanatabar::ipc::DoctorCheck;
use kanatabar::wizard;

fn check(name: &str, ok: bool) -> DoctorCheck {
    DoctorCheck {
        name: name.to_string(),
        ok,
        detail: "detail".to_string(),
        fix_hint: if ok { None } else { Some("fix it".to_string()) },
    }
}

#[test]
fn failing_setup_checks_delegate_to_their_wizard_step() {
    let view = view(&[
        check(checks::DRIVER, false),        // setup-class → wizard
        check(checks::ACTIVE_CONFIG, false), // runtime-class → hint only
        check(checks::DAEMON, true),         // passing setup → no action
    ]);
    let by_name = |n: &str| view.rows.iter().find(|r| r.name == n).expect("row");
    let step = by_name(checks::DRIVER).wizard_step.expect("delegates");
    assert_eq!(
        wizard::steps()[step].verifies,
        Some(checks::DRIVER),
        "delegation lands on the step that verifies the check"
    );
    assert_eq!(by_name(checks::ACTIVE_CONFIG).wizard_step, None);
    assert_eq!(by_name(checks::DAEMON).wizard_step, None);
    assert_eq!(view.summary, "2 of 3 checks failing");
    assert!(!view.all_ok);
}

#[test]
fn all_green_report_summarizes_and_carries_no_actions() {
    let checks: Vec<DoctorCheck> = ALL_CHECKS.map(|n| check(n, true)).to_vec();
    let view = view(&checks);
    assert_eq!(view.summary, "All 12 checks passed");
    assert!(view.all_ok);
    assert!(view.rows.iter().all(|r| r.wizard_step.is_none()));
    // The copyable report is the raw bundle, untransformed.
    assert_eq!(view.report, checks);
}

#[test]
fn healthwin_error_view_carries_the_message_and_no_rows() {
    let view = error("connect failed");
    assert_eq!(view.error.as_deref(), Some("connect failed"));
    assert!(view.rows.is_empty() && view.report.is_empty());
}


/// One failing setup check, field by field.
#[test]
fn a_failing_row_carries_its_hint_and_its_step() {
    let view = view(&[check(checks::DRIVER, false)]);
    assert_eq!(view.summary, "1 of 1 checks failing");
    assert_eq!(view.error, None);
    let row = &view.rows[0];
    assert_eq!(row.name, "karabiner driver");
    assert!(!row.ok);
    assert_eq!(row.detail, "detail");
    assert_eq!(row.fix_hint.as_deref(), Some("fix it"));
    assert_eq!(row.wizard_step, Some(2));
}
