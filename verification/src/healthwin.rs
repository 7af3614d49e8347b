//! Health-Check-window view-model.
//!
//! Display-free: a doctor report in, a [`HealthView`] out. The doctor is
//! unordered, stateless, and exhaustive: every check renders with its detail and
//! fix hint. A failing *setup-class* check gets exactly one action, to open the
//! Setup Assistant at the step that fixes it, never its own onboarding flow.
//! Everything else shows its `fix_hint` (already actionable text from the
//! daemon). "Copy report" carries the `doctor --json` bug-report bundle.

use vstd::prelude::*;

use crate::doctor::{self, failed_count, is_setup_check};
use crate::ipc::DoctorCheck;
use crate::text::number::{self, push_decimal};
use crate::wizard;

verus! {

broadcast use vstd::string::group_string_axioms;

/// Everything the health page renders, in report order.
#[derive(Debug, Clone, PartialEq, Eq)]
pub struct HealthView {
    /// One-line summary under the title ("All 12 checks passed" /
    /// "2 of 12 checks failing").
    pub summary: String,
    /// True when every check passed (the page styles the summary by this).
    pub all_ok: bool,
    /// Fetch failure to display instead of rows, when the daemon call failed.
    pub error: Option<String>,
    /// Check rows, in the daemon's canonical report order.
    pub rows: Vec<CheckRow>,
    /// The bug-report bundle for "Copy report": the raw `DoctorCheck` array,
    /// exactly what `kanatactl doctor --json` prints.
    pub report: Vec<DoctorCheck>,
}

/// One check row.
#[derive(Debug, Clone, PartialEq, Eq)]
pub struct CheckRow {
    /// Stable check name.
    pub name: String,
    /// Did the check pass?
    pub ok: bool,
    /// Human detail line from the daemon.
    pub detail: String,
    /// Fix hint (failures only; `None` on passing checks).
    pub fix_hint: Option<String>,
    /// The wizard step (index into `wizard::steps()`) that fixes this failure,
    /// when it is setup-class: renders as "Open Setup Assistant". `None` for
    /// passing rows and runtime-class failures.
    pub wizard_step: Option<usize>,
}

/// The wizard step that a check is delegated to.
pub open spec fn delegated(check: DoctorCheck) -> Option<nat> {
    if !check.ok && doctor::setup_check(check.name@) {
        wizard::step_for(check.name@, 0)
    } else {
        None
    }
}

/// The row shows the check.
pub open spec fn is_row(row: CheckRow, check: DoctorCheck) -> bool {
    &&& row.name == check.name
    &&& row.ok == check.ok
    &&& row.detail == check.detail
    &&& row.fix_hint == check.fix_hint
    &&& match row.wizard_step {
        Some(i) => delegated(check) == Some(i as nat),
        None => delegated(check) is None,
    }
}

/// The summary under the title.
pub open spec fn summary_of(checks: Seq<DoctorCheck>) -> Seq<char> {
    let failed = doctor::failed_names(checks).len();
    if failed == 0 {
        "All "@ + number::decimal(checks.len()) + " checks passed"@
    } else {
        number::decimal(failed) + " of "@ + number::decimal(checks.len()) + " checks failing"@
    }
}

/// Build the view for a fetched doctor report.
pub fn view(checks: &[DoctorCheck]) -> (r: HealthView)
    ensures
        r.summary@ == summary_of(checks@),
        r.all_ok == doctor::passed(checks@),
        r.error is None,
        r.rows@.len() == checks@.len(),
        forall|i: int| 0 <= i < checks@.len() ==> is_row(#[trigger] r.rows@[i], checks@[i]),
        r.report@ == checks@,
{
    let mut rows: Vec<CheckRow> = Vec::new();
    let mut report: Vec<DoctorCheck> = Vec::new();
    let mut i: usize = 0;
    while i < checks.len()
        invariant
            i <= checks@.len(),
            rows@.len() == i,
            report@ == checks@.take(i as int),
            forall|k: int| 0 <= k < i ==> is_row(#[trigger] rows@[k], checks@[k]),
        decreases checks@.len() - i,
    {
        let c = checks[i].copied();
        let wizard_step = if !c.ok && is_setup_check(c.name.as_str()) {
            wizard::step_index_for_check(c.name.as_str())
        } else {
            None
        };
        rows.push(
            CheckRow {
                name: c.name.clone(),
                ok: c.ok,
                detail: c.detail.clone(),
                fix_hint: match &c.fix_hint {
                    Some(hint) => Some(hint.clone()),
                    None => None,
                },
                wizard_step,
            },
        );
        report.push(c);
        assert(report@ =~= checks@.take(i + 1));
        i += 1;
    }
    let failed: usize = failed_count(checks);
    proof {
        doctor::passed_iff_none_failed(checks@);
    }
    let mut summary = String::new();
    if failed == 0 {
        summary.append("All ");
        push_decimal(&mut summary, checks.len() as u64);
        summary.append(" checks passed");
    } else {
        push_decimal(&mut summary, failed as u64);
        summary.append(" of ");
        push_decimal(&mut summary, checks.len() as u64);
        summary.append(" checks failing");
    }
    assert(summary@ =~= summary_of(checks@));
    HealthView { summary, all_ok: failed == 0, error: None, rows, report }
}

/// Build the view for a failed fetch (daemon unreachable / request rejected).
pub fn error(message: &str) -> (r: HealthView)
    ensures
        r.summary@ == "Health check unavailable"@,
        !r.all_ok,
        r.error.deep_view() == Some(message@),
        r.rows@.len() == 0,
        r.report@.len() == 0,
{
    HealthView {
        summary: "Health check unavailable".to_owned(),
        all_ok: false,
        error: Some(message.to_owned()),
        rows: Vec::new(),
        report: Vec::new(),
    }
}

/// Delegation is exact: a failing setup-class check leads to a wizard step that
/// verifies it, and no other check leads anywhere.
pub proof fn delegation_is_exact(check: DoctorCheck)
    ensures
        !check.ok && doctor::setup_check(check.name@) ==> {
            &&& delegated(check) is Some
            &&& delegated(check)->0 < wizard::STEP_COUNT
            &&& wizard::step_check(delegated(check)->0 as int) == Some(check.name@)
        },
        check.ok || !doctor::setup_check(check.name@) ==> delegated(check) is None,
{
    if !check.ok && doctor::setup_check(check.name@) {
        let i = choose|i: int| doctor::setup_check_at(check.name@, i);
        wizard::every_setup_check_has_a_step(i);
    }
}

/// The summary says that all checks passed exactly when none failed, and
/// otherwise how many of how many did.
pub proof fn the_summary_counts_failures(checks: Seq<DoctorCheck>)
    ensures
        doctor::passed(checks) ==> summary_of(checks) == "All "@ + number::decimal(checks.len())
            + " checks passed"@,
        !doctor::passed(checks) ==> summary_of(checks) == number::decimal(
            checks.filter(|c: DoctorCheck| !c.ok).len(),
        ) + " of "@ + number::decimal(checks.len()) + " checks failing"@,
{
    doctor::failures_are_the_checks_that_failed(checks);
    doctor::passed_iff_none_failed(checks);
}

} // verus!
