//! First-run setup wizard model.
//!
//! The wizard walks a fresh machine through: install the Karabiner driver →
//! activate + approve the system extension → grant Input Monitoring → install
//! the daemon + agent → run `doctor` and show a green checklist. It is UI over
//! the same checks `kanatactl doctor` runs: each step names the `doctor` check
//! that verifies it, so the wizard never re-implements a check: it opens the
//! relevant pane and re-runs `doctor`.
//!
//! This module is the step model; the GUI shell renders it and the actual
//! verification is the daemon's `Doctor` handler.

pub mod panes;

use vstd::prelude::*;

use crate::doctor::{self, checks};
use crate::ipc::{DoctorCheck, PermissionKind};
use crate::state::DegradedReason;
use crate::text::{self, same};
use crate::vhidd;

verus! {

broadcast use vstd::string::group_string_axioms;

/// One wizard step.
#[derive(Debug, Clone, Copy, PartialEq, Eq)]
pub struct WizardStep {
    /// Short step title.
    pub title: &'static str,
    /// What the user must do.
    pub instruction: &'static str,
    /// A command (argv) the wizard runs *for* the user when it lands on this
    /// step, e.g. the Karabiner manager's `activate` request, which runs
    /// without sudo in the user's session (activation is scriptable; only the
    /// approval click is not).
    pub run: Option<[&'static str; 2]>,
    /// A URL or `x-apple.systempreferences:` pane to `open(1)` for this step,
    /// when one applies.
    pub open: Option<&'static str>,
    /// A command for the *user* to run, shown as copyable text: steps that
    /// need sudo, which the tray never runs itself.
    pub copy: Option<&'static str>,
    /// A permission the wizard can ask the *daemon* to request for the user:
    /// the daemon registers kanatad's entry in the Privacy pane, then the user
    /// toggles it on. Grants attach to the calling process and kanatad is the
    /// responsible process.
    pub request: Option<PermissionKind>,
    /// The `doctor` check name that verifies this step, when the step maps to
    /// one.
    pub verifies: Option<&'static str>,
}

/// The Karabiner extension-activation request:
/// `Karabiner-VirtualHIDDevice-Manager activate`, no sudo. Idempotent: safe to
/// re-run on every wizard pass.
pub const ACTIVATE_DRIVER_CMD: [&'static str; 2] = [vhidd::MANAGER_BINARY, "activate"];

/// Where to obtain the Karabiner DriverKit VirtualHIDDevice driver.
pub const KARABINER_DRIVER_URL: &'static str =
    "https://github.com/pqrs-org/Karabiner-DriverKit-VirtualHIDDevice/releases";

/// The command that installs the background service.
pub const INSTALL_COMMAND: &'static str = "sudo kanatactl install";

/// The scheme of a System Settings pane.
pub const SETTINGS_SCHEME: &'static str = "x-apple.systempreferences:";

// ── The step table, column by column ────────────────────────────────────────

/// How many steps there are.
pub const STEP_COUNT: usize = 8;

/// The step titles, in order.
pub const TITLES: [&'static str; 8] = [
    "Install the Karabiner driver",
    "Match the driver version to kanata",
    "Activate & approve the extension",
    "Keep the VHID daemon running",
    "Grant Input Monitoring",
    "Grant Accessibility",
    "Install the KanataBar service",
    "Verify",
];

/// What the user must do in each step.
pub const INSTRUCTIONS: [&'static str; 8] = [
    "kanata needs the Karabiner-DriverKit-VirtualHIDDevice driver — install the version named in your kanata release notes (the newest driver is not always the supported one).",
    "If doctor reports a driver/kanata version mismatch, install the driver release your kanata version supports.",
    "KanataBar has requested the extension's activation for you (Karabiner-VirtualHIDDevice-Manager activate); approve it in System Settings → Privacy & Security, then re-check.",
    "Nothing supervises the Karabiner VirtualHIDDevice daemon, so it dies on reboot. Run `sudo kanatactl install` — it registers KanataBar's LaunchDaemon for it (skipped automatically when Karabiner-Elements or your own plist already manages it).",
    "Add /usr/local/bin/kanatad to Input Monitoring (+ button, Cmd+Shift+G to type the path) — macOS attributes kanata's device access to the supervising daemon, so kanata's own self-registered entry is not the one checked. After updating KanataBar, remove (−) and re-add (+) this entry (kanata updates don't affect it).",
    "Add /usr/local/bin/kanatad to Accessibility too (+ button, Cmd+Shift+G to type the path) — macOS requires BOTH permissions on the supervising daemon. After updating KanataBar, remove (−) and re-add (+) this entry (kanata updates don't affect it).",
    "Install the background daemon and agent: run `sudo kanatactl install` in Terminal.",
    "Run doctor — every check should be green.",
];

/// Only the activation step runs something for the user.
pub open spec fn step_runs(i: int) -> bool {
    i == 2
}

/// The target that a step opens.
pub open spec fn step_open(i: int) -> Option<Seq<char>> {
    if i == 0 || i == 1 {
        Some(KARABINER_DRIVER_URL@)
    } else if i == 2 {
        Some(panes::EXTENSIONS@)
    } else if i == 4 {
        Some(panes::INPUT_MONITORING@)
    } else if i == 5 {
        Some(panes::ACCESSIBILITY@)
    } else {
        None
    }
}

/// The command that a step has the user copy.
pub open spec fn step_copy(i: int) -> Option<Seq<char>> {
    if i == 3 || i == 6 {
        Some(INSTALL_COMMAND@)
    } else {
        None
    }
}

/// The permission that a step is about.
pub open spec fn step_request(i: int) -> Option<PermissionKind> {
    if i == 4 {
        Some(PermissionKind::InputMonitoring)
    } else if i == 5 {
        Some(PermissionKind::Accessibility)
    } else {
        None
    }
}

/// The check that verifies a step. Doctor has no check for Accessibility, and
/// the last step is doctor itself.
pub open spec fn step_check(i: int) -> Option<Seq<char>> {
    if i == 0 {
        Some(checks::DRIVER_PRESENT@)
    } else if i == 1 {
        Some(checks::DRIVER_VERSION@)
    } else if i == 2 {
        Some(checks::DRIVER@)
    } else if i == 3 {
        Some(checks::VHID_MANAGED@)
    } else if i == 4 {
        Some(checks::INPUT_MONITORING@)
    } else if i == 6 {
        Some(checks::DAEMON@)
    } else {
        None
    }
}

/// The text of an optional static string.
pub open spec fn text_of(s: Option<&'static str>) -> Option<Seq<char>> {
    match s {
        Some(s) => Some(s@),
        None => None,
    }
}

/// The step is row `i` of the table.
pub open spec fn is_step(step: WizardStep, i: int) -> bool {
    &&& 0 <= i < STEP_COUNT
    &&& step.title@ == TITLES@[i]@
    &&& step.instruction@ == INSTRUCTIONS@[i]@
    &&& step.run == (if step_runs(i) {
        Some(ACTIVATE_DRIVER_CMD)
    } else {
        None
    })
    &&& text_of(step.open) == step_open(i)
    &&& text_of(step.copy) == step_copy(i)
    &&& step.request == step_request(i)
    &&& text_of(step.verifies) == step_check(i)
}

/// The ordered wizard steps.
pub fn steps() -> (r: Vec<WizardStep>)
    ensures
        r@.len() == STEP_COUNT,
        forall|i: int| 0 <= i < STEP_COUNT ==> is_step(#[trigger] r@[i], i),
{
    vec![
        WizardStep {
            title: TITLES[0],
            instruction: INSTRUCTIONS[0],
            run: None,
            open: Some(KARABINER_DRIVER_URL),
            copy: None,
            request: None,
            verifies: Some(checks::DRIVER_PRESENT),
        },
        WizardStep {
            title: TITLES[1],
            instruction: INSTRUCTIONS[1],
            run: None,
            open: Some(KARABINER_DRIVER_URL),
            copy: None,
            request: None,
            verifies: Some(checks::DRIVER_VERSION),
        },
        WizardStep {
            title: TITLES[2],
            instruction: INSTRUCTIONS[2],
            run: Some(ACTIVATE_DRIVER_CMD),
            open: Some(panes::EXTENSIONS),
            copy: None,
            request: None,
            verifies: Some(checks::DRIVER),
        },
        WizardStep {
            title: TITLES[3],
            instruction: INSTRUCTIONS[3],
            run: None,
            open: None,
            copy: Some(INSTALL_COMMAND),
            request: None,
            verifies: Some(checks::VHID_MANAGED),
        },
        WizardStep {
            title: TITLES[4],
            instruction: INSTRUCTIONS[4],
            run: None,
            open: Some(panes::INPUT_MONITORING),
            copy: None,
            request: Some(PermissionKind::InputMonitoring),
            verifies: Some(checks::INPUT_MONITORING),
        },
        WizardStep {
            title: TITLES[5],
            instruction: INSTRUCTIONS[5],
            run: None,
            open: Some(panes::ACCESSIBILITY),
            copy: None,
            request: Some(PermissionKind::Accessibility),
            verifies: None,
        },
        WizardStep {
            title: TITLES[6],
            instruction: INSTRUCTIONS[6],
            run: None,
            open: None,
            copy: Some(INSTALL_COMMAND),
            request: None,
            verifies: Some(checks::DAEMON),
        },
        WizardStep {
            title: TITLES[7],
            instruction: INSTRUCTIONS[7],
            run: None,
            open: None,
            copy: None,
            request: None,
            verifies: None,
        },
    ]
}

// ── From a check to the step that fixes it ──────────────────────────────────

/// The first step from `from` on that the check verifies.
pub open spec fn step_for(check: Seq<char>, from: nat) -> Option<nat>
    decreases STEP_COUNT - from,
{
    if from >= STEP_COUNT {
        None
    } else if step_check(from as int) == Some(check) {
        Some(from)
    } else {
        step_for(check, from + 1)
    }
}

/// The wizard step (index into [`steps`]) that fixes a given doctor check: the
/// *inverted* `verifies` mapping. This is how the doctor window delegates a
/// setup-class failure to the wizard ("Open Setup Assistant at this step").
pub fn step_index_for_check(check_name: &str) -> (r: Option<usize>)
    ensures
        match r {
            Some(i) => step_for(check_name@, 0) == Some(i as nat),
            None => step_for(check_name@, 0) is None,
        },
{
    let table = steps();
    let mut i: usize = 0;
    while i < table.len()
        invariant
            i <= table@.len(),
            table@.len() == STEP_COUNT,
            forall|k: int| 0 <= k < STEP_COUNT ==> is_step(#[trigger] table@[k], k),
            step_for(check_name@, 0) == step_for(check_name@, i as nat),
        decreases table@.len() - i,
    {
        assert(is_step(table@[i as int], i as int));
        if let Some(name) = table[i].verifies {
            if same(name, check_name) {
                return Some(i);
            }
        }
        i += 1;
    }
    None
}

/// The check that a degradation maps to.
pub open spec fn check_of(reason: DegradedReason) -> Option<Seq<char>> {
    match reason {
        DegradedReason::InputMonitoringDenied => Some(checks::INPUT_MONITORING@),
        DegradedReason::DriverNotActivated => Some(checks::DRIVER@),
        DegradedReason::VhidDaemonDown => Some(checks::VHID_DAEMON@),
        DegradedReason::KanataBinMissing => Some(checks::KANATA_BINARY@),
        DegradedReason::ConfigBroken => Some(checks::ACTIVE_CONFIG@),
        _ => None,
    }
}

/// The doctor check whose wizard step fixes a given runtime degradation, when
/// one exists. Doctor checks can't see everything (Input Monitoring is
/// unreadable by design, so its check never fails statically) but the
/// *supervisor* knows the runtime truth. Mapping the degraded reason back onto
/// a check name lets the wizard trust the daemon over the checklist.
pub fn check_for_degraded_reason(reason: DegradedReason) -> (r: Option<&'static str>)
    ensures
        text_of(r) == check_of(reason),
{
    match reason {
        DegradedReason::InputMonitoringDenied => Some(checks::INPUT_MONITORING),
        DegradedReason::DriverNotActivated => Some(checks::DRIVER),
        DegradedReason::VhidDaemonDown => Some(checks::VHID_DAEMON),
        DegradedReason::KanataBinMissing => Some(checks::KANATA_BINARY),
        DegradedReason::ConfigBroken => Some(checks::ACTIVE_CONFIG),
        // No setup step exists for these: budget exhaustion and grab/port
        // conflicts are operational states, not onboarding gaps; the
        // output-backend loss recovers by itself.
        DegradedReason::RetryBudgetExhausted
        | DegradedReason::DeviceGrabConflict
        | DegradedReason::TcpPortConflict
        | DegradedReason::OutputBackendUnavailable => None,
    }
}

/// The report has a failed check of this name.
pub open spec fn reported_failed(checks: Seq<DoctorCheck>, name: Seq<char>) -> bool {
    exists|k: int| 0 <= k < checks.len() && !(#[trigger] checks[k]).ok && checks[k].name@ == name
}

/// The check counts as failed: by the report, or because the supervisor is
/// degraded for it.
pub open spec fn counts_failed(
    checks: Seq<DoctorCheck>,
    degraded: Option<DegradedReason>,
    name: Seq<char>,
) -> bool {
    reported_failed(checks, name) || (degraded matches Some(reason) && check_of(reason) == Some(
        name,
    ))
}

/// The step is not done: its check counts as failed.
pub open spec fn unsatisfied(
    checks: Seq<DoctorCheck>,
    degraded: Option<DegradedReason>,
    i: int,
) -> bool {
    step_check(i) matches Some(name) && counts_failed(checks, degraded, name)
}

/// The first step from `from` on that is not done.
pub open spec fn next_step(
    checks: Seq<DoctorCheck>,
    degraded: Option<DegradedReason>,
    from: nat,
) -> Option<nat>
    decreases STEP_COUNT - from,
{
    if from >= STEP_COUNT {
        None
    } else if unsatisfied(checks, degraded, from as int) {
        Some(from)
    } else {
        next_step(checks, degraded, from + 1)
    }
}

fn check_failed(checks: &[DoctorCheck], degraded: Option<DegradedReason>, name: &str) -> (r: bool)
    ensures
        r == counts_failed(checks@, degraded, name@),
{
    if let Some(reason) = degraded {
        if let Some(mapped) = check_for_degraded_reason(reason) {
            if same(mapped, name) {
                return true;
            }
        }
    }
    let mut i: usize = 0;
    while i < checks.len()
        invariant
            i <= checks@.len(),
            forall|k: int|
                0 <= k < i ==> !(!(#[trigger] checks@[k]).ok && checks@[k].name@ == name@),
        decreases checks@.len() - i,
    {
        if !checks[i].ok && same(checks[i].name.as_str(), name) {
            assert(!checks@[i as int].ok && checks@[i as int].name@ == name@);
            return true;
        }
        i += 1;
    }
    false
}

/// The index of the first wizard step that is not done.
pub fn first_unsatisfied_index(
    checks: &[DoctorCheck],
    degraded: Option<DegradedReason>,
) -> (r: Option<usize>)
    ensures
        match r {
            Some(i) => next_step(checks@, degraded, 0) == Some(i as nat) && i < STEP_COUNT,
            None => next_step(checks@, degraded, 0) is None,
        },
{
    let table = steps();
    let mut i: usize = 0;
    while i < table.len()
        invariant
            i <= table@.len(),
            table@.len() == STEP_COUNT,
            forall|k: int| 0 <= k < STEP_COUNT ==> is_step(#[trigger] table@[k], k),
            next_step(checks@, degraded, 0) == next_step(checks@, degraded, i as nat),
        decreases table@.len() - i,
    {
        assert(is_step(table@[i as int], i as int));
        if let Some(name) = table[i].verifies {
            if check_failed(checks, degraded, name) {
                return Some(i);
            }
        }
        i += 1;
    }
    None
}

/// The first wizard step whose verifying `doctor` check is currently failing,
/// i.e. the next thing the user should fix. A supervisor degradation counts as
/// its mapped check failing, even when the static check passes (see
/// [`check_for_degraded_reason`]). `None` when every checked step is satisfied.
/// Drives the tray's one-click "Setup Wizard…".
pub fn first_unsatisfied(
    checks: &[DoctorCheck],
    degraded: Option<DegradedReason>,
) -> (r: Option<WizardStep>)
    ensures
        match r {
            Some(step) => next_step(checks@, degraded, 0) matches Some(i) && is_step(
                step,
                i as int,
            ),
            None => next_step(checks@, degraded, 0) is None,
        },
{
    match first_unsatisfied_index(checks, degraded) {
        Some(i) => {
            let table = steps();
            assert(is_step(table@[i as int], i as int));
            Some(table[i])
        },
        None => None,
    }
}

// ── What holds of the table ─────────────────────────────────────────────────

/// Every step that names a check names one that doctor reports.
pub proof fn step_checks_are_checks(i: int)
    requires
        step_check(i) is Some,
    ensures
        exists|j: int|
            0 <= j < doctor::ALL_CHECKS@.len() && Some(#[trigger] doctor::ALL_CHECKS@[j]@)
                == step_check(i),
{
    let j: int = if i == 0 {
        2
    } else if i == 1 {
        4
    } else if i == 2 {
        3
    } else if i == 3 {
        6
    } else if i == 4 {
        7
    } else {
        0
    };
    assert(Some(doctor::ALL_CHECKS@[j]@) == step_check(i));
}

/// Every degradation that maps to a check maps to one that doctor reports.
pub proof fn degraded_checks_are_checks(reason: DegradedReason)
    requires
        check_of(reason) is Some,
    ensures
        exists|j: int|
            0 <= j < doctor::ALL_CHECKS@.len() && Some(#[trigger] doctor::ALL_CHECKS@[j]@)
                == check_of(reason),
{
    let j: int = match reason {
        DegradedReason::InputMonitoringDenied => 7,
        DegradedReason::DriverNotActivated => 3,
        DegradedReason::VhidDaemonDown => 5,
        DegradedReason::KanataBinMissing => 1,
        _ => 9,
    };
    assert(Some(doctor::ALL_CHECKS@[j]@) == check_of(reason));
}

/// A step that the search finds is one that the check verifies, and the search
/// finds one where there is one.
proof fn step_for_finds(check: Seq<char>, from: nat, i: int)
    requires
        from <= i < STEP_COUNT,
        step_check(i) == Some(check),
    ensures
        step_for(check, from) matches Some(k) && k < STEP_COUNT && step_check(k as int) == Some(
            check,
        ),
    decreases i - from,
{
    if step_check(from as int) != Some(check) {
        step_for_finds(check, from + 1, i);
    }
}

/// The inversion covers every setup-class check: the step it leads to is one
/// that the check verifies.
pub proof fn every_setup_check_has_a_step(i: int)
    requires
        0 <= i < doctor::SETUP_CHECKS@.len(),
    ensures
        step_for(doctor::SETUP_CHECKS@[i]@, 0) matches Some(k) && k < STEP_COUNT && step_check(
            k as int,
        ) == Some(doctor::SETUP_CHECKS@[i]@),
{
    let step: int = if i == 0 {
        0
    } else if i == 1 {
        1
    } else if i == 2 {
        2
    } else if i == 3 {
        3
    } else if i == 4 {
        4
    } else {
        6
    };
    step_for_finds(doctor::SETUP_CHECKS@[i]@, 0, step);
}

/// The search for the next step stops at the first one that is not done.
pub proof fn next_step_is_first(
    checks: Seq<DoctorCheck>,
    degraded: Option<DegradedReason>,
    from: nat,
)
    ensures
        match next_step(checks, degraded, from) {
            Some(k) => {
                &&& from <= k < STEP_COUNT
                &&& unsatisfied(checks, degraded, k as int)
                &&& forall|j: int| from <= j < k ==> !unsatisfied(checks, degraded, j)
            },
            None => forall|j: int| from <= j < STEP_COUNT ==> !unsatisfied(checks, degraded, j),
        },
    decreases STEP_COUNT - from,
{
    if from < STEP_COUNT && !unsatisfied(checks, degraded, from as int) {
        next_step_is_first(checks, degraded, from + 1);
    }
}

/// The wizard and doctor agree: while setup is incomplete the wizard has a step
/// to show.
pub proof fn incomplete_setup_has_a_next_step(
    checks: Seq<DoctorCheck>,
    degraded: Option<DegradedReason>,
)
    requires
        !doctor::setup_passed(checks),
    ensures
        next_step(checks, degraded, 0) is Some,
{
    let k = choose|k: int|
        0 <= k < checks.len() && doctor::setup_check(#[trigger] checks[k].name@) && !checks[k].ok;
    let i = choose|i: int| doctor::setup_check_at(checks[k].name@, i);
    every_setup_check_has_a_step(i);
    let step = step_for(checks[k].name@, 0)->0;
    assert(!checks[k].ok);
    assert(reported_failed(checks, checks[k].name@));
    assert(unsatisfied(checks, degraded, step as int));
    next_step_is_first(checks, degraded, 0);
}

/// A green report and a supervisor that is not degraded leave nothing to do.
pub proof fn all_green_is_done(checks: Seq<DoctorCheck>)
    requires
        doctor::passed(checks),
    ensures
        next_step(checks, None, 0) is None,
{
    next_step_is_first(checks, None, 0);
}

/// A degradation whose check has a step overrides a green report.
pub proof fn degradation_overrides_green(checks: Seq<DoctorCheck>, reason: DegradedReason)
    requires
        reason == DegradedReason::InputMonitoringDenied || reason
            == DegradedReason::DriverNotActivated,
    ensures
        next_step(checks, Some(reason), 0) is Some,
{
    let step: int = if reason == DegradedReason::InputMonitoringDenied {
        4
    } else {
        2
    };
    assert(unsatisfied(checks, Some(reason), step));
    next_step_is_first(checks, Some(reason), 0);
}

/// The tray never elevates: a command to copy is one for sudo, and a step that
/// has one runs nothing itself.
pub proof fn sudo_is_only_copied(i: int)
    requires
        0 <= i < STEP_COUNT,
    ensures
        step_copy(i) matches Some(command) ==> text::begins(command, "sudo "@) && !step_runs(i),
{
    reveal_strlit("sudo ");
    reveal_strlit("sudo kanatactl install");
    assert(INSTALL_COMMAND@.subrange(0, 5) =~= "sudo "@);
}

/// What the wizard runs is named by an absolute path.
pub proof fn run_target_is_absolute()
    ensures
        ACTIVATE_DRIVER_CMD@[0]@.len() > 0,
        ACTIVATE_DRIVER_CMD@[0]@[0] == '/',
{
    reveal_strlit(
        "/Applications/.Karabiner-VirtualHIDDevice-Manager.app/Contents/MacOS/Karabiner-VirtualHIDDevice-Manager",
    );
}

/// Every target that a step opens is a System Settings pane or a secure web
/// page.
pub proof fn open_targets_are_openable(i: int)
    requires
        0 <= i < STEP_COUNT,
    ensures
        step_open(i) matches Some(target) ==> text::begins(target, SETTINGS_SCHEME@) || text::begins(
            target,
            "https://"@,
        ),
{
    reveal_strlit("x-apple.systempreferences:");
    reveal_strlit("https://");
    reveal_strlit("https://github.com/pqrs-org/Karabiner-DriverKit-VirtualHIDDevice/releases");
    reveal_strlit("x-apple.systempreferences:com.apple.preference.security?Extensions");
    reveal_strlit("x-apple.systempreferences:com.apple.preference.security?Privacy_ListenEvent");
    reveal_strlit("x-apple.systempreferences:com.apple.preference.security?Privacy_Accessibility");
    assert(KARABINER_DRIVER_URL@.subrange(0, 8) =~= "https://"@);
    assert(panes::EXTENSIONS@.subrange(0, 26) =~= SETTINGS_SCHEME@);
    assert(panes::INPUT_MONITORING@.subrange(0, 26) =~= SETTINGS_SCHEME@);
    assert(panes::ACCESSIBILITY@.subrange(0, 26) =~= SETTINGS_SCHEME@);
}

// ── What a degradation leads to ─────────────────────────────────────────────

/// The names of the checks are all different: each is told from the others by
/// its length, its first letter or its eighth.
proof fn check_names_differ()
    ensures
        checks::DAEMON@.len() == 6,
        checks::SUPERVISOR@.len() == 10,
        checks::VHID_DAEMON@.len() == 11 && checks::VHID_DAEMON@[0] == 'v',
        checks::CONFIG_FILE@.len() == 11 && checks::CONFIG_FILE@[0] == 'c',
        checks::KANATA_BINARY@.len() == 13 && checks::KANATA_BINARY@[0] == 'k',
        checks::ACTIVE_CONFIG@.len() == 13 && checks::ACTIVE_CONFIG@[0] == 'a',
        checks::DRIVER_PRESENT@.len() == 14 && checks::DRIVER_PRESENT@[0] == 'd'
            && checks::DRIVER_PRESENT@[7] == 'p',
        checks::DRIVER_VERSION@.len() == 14 && checks::DRIVER_VERSION@[0] == 'd'
            && checks::DRIVER_VERSION@[7] == 'v',
        checks::CONTROL_SOCKET@.len() == 14 && checks::CONTROL_SOCKET@[0] == 'c',
        checks::DRIVER@.len() == 16 && checks::DRIVER@[0] == 'k',
        checks::INPUT_MONITORING@.len() == 16 && checks::INPUT_MONITORING@[0] == 'i',
        checks::VHID_MANAGED@.len() == 19,
{
    reveal_strlit("daemon");
    reveal_strlit("supervisor");
    reveal_strlit("vhid daemon");
    reveal_strlit("config file");
    reveal_strlit("kanata binary");
    reveal_strlit("active config");
    reveal_strlit("driver present");
    reveal_strlit("driver version");
    reveal_strlit("control socket");
    reveal_strlit("karabiner driver");
    reveal_strlit("input monitoring");
    reveal_strlit("vhid daemon managed");
}

/// A degradation points at the check of the very thing that is wrong, and the
/// ones that no check covers point at none.
pub proof fn reasons_point_at_what_is_wrong(reason: DegradedReason)
    ensures
        reason == DegradedReason::InputMonitoringDenied <==> check_of(reason) == Some(
            "input monitoring"@,
        ),
        reason == DegradedReason::DriverNotActivated <==> check_of(reason) == Some(
            "karabiner driver"@,
        ),
        reason == DegradedReason::VhidDaemonDown <==> check_of(reason) == Some("vhid daemon"@),
        reason == DegradedReason::KanataBinMissing <==> check_of(reason) == Some("kanata binary"@),
        reason == DegradedReason::ConfigBroken <==> check_of(reason) == Some("active config"@),
        check_of(reason) is None <==> reason == DegradedReason::RetryBudgetExhausted || reason
            == DegradedReason::DeviceGrabConflict || reason == DegradedReason::TcpPortConflict
            || reason == DegradedReason::OutputBackendUnavailable,
{
    check_names_differ();
}

/// No two degradations point at one check.
pub proof fn reasons_have_their_own_checks(a: DegradedReason, b: DegradedReason)
    requires
        a != b,
        check_of(a) is Some,
    ensures
        check_of(a) != check_of(b),
{
    check_names_differ();
}

/// No two steps are verified by one check.
pub proof fn steps_have_their_own_checks(i: int, j: int)
    requires
        i != j,
        step_check(i) is Some,
    ensures
        step_check(i) != step_check(j),
{
    check_names_differ();
}

/// Each step fixes what its check looks at: the steps that install the driver
/// lead to its download, the one that activates it runs the activation and leads
/// to the extensions pane, a permission is asked for on its own pane, and the
/// service is installed by a command of the user's.
pub proof fn steps_fix_what_their_checks_see(i: int)
    requires
        0 <= i < STEP_COUNT,
    ensures
        step_runs(i) <==> step_check(i) == Some("karabiner driver"@),
        step_open(i) == Some(KARABINER_DRIVER_URL@) <==> step_check(i) == Some("driver present"@)
            || step_check(i) == Some("driver version"@),
        step_open(i) == Some(panes::EXTENSIONS@) <==> step_check(i) == Some("karabiner driver"@),
        step_open(i) == Some(panes::INPUT_MONITORING@) <==> step_check(i) == Some(
            "input monitoring"@,
        ),
        step_request(i) == Some(PermissionKind::InputMonitoring) <==> step_check(i) == Some(
            "input monitoring"@,
        ),
        step_open(i) == Some(panes::ACCESSIBILITY@) <==> step_request(i) == Some(
            PermissionKind::Accessibility,
        ),
        step_copy(i) is Some <==> step_check(i) == Some("vhid daemon managed"@) || step_check(i)
            == Some("daemon"@),
        step_request(i) == Some(PermissionKind::Accessibility) ==> step_check(i) is None,
        TITLES@[i]@ == "Install the Karabiner driver"@ <==> step_check(i) == Some(
            "driver present"@,
        ),
        TITLES@[i]@ == "Match the driver version to kanata"@ <==> step_check(i) == Some(
            "driver version"@,
        ),
        TITLES@[i]@ == "Activate & approve the extension"@ <==> step_check(i) == Some(
            "karabiner driver"@,
        ),
        TITLES@[i]@ == "Keep the VHID daemon running"@ <==> step_check(i) == Some(
            "vhid daemon managed"@,
        ),
        TITLES@[i]@ == "Grant Input Monitoring"@ <==> step_check(i) == Some("input monitoring"@),
        TITLES@[i]@ == "Grant Accessibility"@ <==> step_request(i) == Some(
            PermissionKind::Accessibility,
        ),
        TITLES@[i]@ == "Install the KanataBar service"@ <==> step_check(i) == Some("daemon"@),
{
    check_names_differ();
    reveal_strlit("https://github.com/pqrs-org/Karabiner-DriverKit-VirtualHIDDevice/releases");
    reveal_strlit("x-apple.systempreferences:com.apple.preference.security?Extensions");
    reveal_strlit("x-apple.systempreferences:com.apple.preference.security?Privacy_ListenEvent");
    reveal_strlit("x-apple.systempreferences:com.apple.preference.security?Privacy_Accessibility");
    assert(KARABINER_DRIVER_URL@.len() == 73);
    assert(panes::EXTENSIONS@.len() == 66);
    assert(panes::INPUT_MONITORING@.len() == 75);
    assert(panes::ACCESSIBILITY@.len() == 77);
    reveal_strlit("Install the Karabiner driver");
    reveal_strlit("Match the driver version to kanata");
    reveal_strlit("Activate & approve the extension");
    reveal_strlit("Keep the VHID daemon running");
    reveal_strlit("Grant Input Monitoring");
    reveal_strlit("Grant Accessibility");
    reveal_strlit("Install the KanataBar service");
    reveal_strlit("Verify");
    assert(TITLES@[0]@.len() == 28 && TITLES@[0]@[0] == 'I');
    assert(TITLES@[1]@.len() == 34);
    assert(TITLES@[2]@.len() == 32);
    assert(TITLES@[3]@.len() == 28 && TITLES@[3]@[0] == 'K');
    assert(TITLES@[4]@.len() == 22);
    assert(TITLES@[5]@.len() == 19);
    assert(TITLES@[6]@.len() == 29);
    assert(TITLES@[7]@.len() == 6);
}

/// Over a green report, a degradation leads to a step in two cases only: denied
/// input monitoring to the step verified by that check, and a driver that is not
/// activated to the step verified by that one. Every other degradation is not a
/// matter of setup, and leads to none.
pub proof fn green_reports_lead_to_the_broken_thing(
    checks: Seq<DoctorCheck>,
    reason: DegradedReason,
)
    requires
        forall|k: int| 0 <= k < checks.len() ==> (#[trigger] checks[k]).ok,
    ensures
        match next_step(checks, Some(reason), 0) {
            Some(i) => i < STEP_COUNT && (reason == DegradedReason::InputMonitoringDenied
                && step_check(i as int) == Some("input monitoring"@) || reason
                == DegradedReason::DriverNotActivated && step_check(i as int) == Some(
                "karabiner driver"@,
            )),
            None => reason != DegradedReason::InputMonitoringDenied && reason
                != DegradedReason::DriverNotActivated,
        },
{
    check_names_differ();
    next_step_is_first(checks, Some(reason), 0);
    assert forall|name: Seq<char>| !reported_failed(checks, name) by {
        if reported_failed(checks, name) {
            let k = choose|k: int|
                0 <= k < checks.len() && !(#[trigger] checks[k]).ok && checks[k].name@ == name;
            assert(checks[k].ok);
        }
    }
    if reason == DegradedReason::InputMonitoringDenied {
        assert(unsatisfied(checks, Some(reason), 4));
    }
    if reason == DegradedReason::DriverNotActivated {
        assert(unsatisfied(checks, Some(reason), 2));
    }
}

/// The step that the wizard shows is the first one in the table whose check
/// failed in the report or is the one the degradation points at.
pub proof fn the_next_step_is_the_first_to_fix(
    checks: Seq<DoctorCheck>,
    degraded: Option<DegradedReason>,
    i: int,
    name: Seq<char>,
)
    requires
        0 <= i < STEP_COUNT,
        step_check(i) == Some(name),
        (exists|k: int|
            0 <= k < checks.len() && !(#[trigger] checks[k]).ok && checks[k].name@ == name) || (
        degraded matches Some(reason) && check_of(reason) == Some(name)),
    ensures
        next_step(checks, degraded, 0) matches Some(k) && k <= i,
{
    next_step_is_first(checks, degraded, 0);
    assert(reported_failed(checks, name) || counts_failed(checks, degraded, name));
    assert(unsatisfied(checks, degraded, i));
}

/// A check leads to the step that it verifies, and to no other.
pub proof fn checks_lead_to_their_steps(check: Seq<char>, i: int)
    requires
        0 <= i < STEP_COUNT,
    ensures
        step_for(check, 0) == Some(i as nat) <==> step_check(i) == Some(check),
{
    if step_check(i) == Some(check) {
        step_for_finds(check, 0, i);
        let k = step_for(check, 0)->0;
        if k != i {
            steps_have_their_own_checks(i, k as int);
        }
    } else {
        step_found_is_verified(check, 0);
    }
}

proof fn step_found_is_verified(check: Seq<char>, from: nat)
    ensures
        step_for(check, from) matches Some(k) ==> step_check(k as int) == Some(check),
    decreases STEP_COUNT - from,
{
    if from < STEP_COUNT && step_check(from as int) != Some(check) {
        step_found_is_verified(check, from + 1);
    }
}

/// Setup is what the wizard has steps for: a check is a setup-class check exactly
/// when a step is verified by it.
pub proof fn setup_checks_are_the_steps_checks(name: Seq<char>)
    ensures
        doctor::setup_check(name) <==> exists|i: int|
            0 <= i < STEP_COUNT && #[trigger] step_check(i) == Some(name),
{
    doctor::setup_checks_are_these(name);
    if doctor::setup_check(name) {
        let i = choose|i: int| doctor::setup_check_at(name, i);
        every_setup_check_has_a_step(i);
        let k = step_for(name, 0)->0;
        assert(step_check(k as int) == Some(name));
    }
}

/// The panes are System Settings, and the driver's page is not.
pub proof fn settings_panes_are_settings()
    ensures
        text::begins(panes::EXTENSIONS@, SETTINGS_SCHEME@),
        text::begins(panes::INPUT_MONITORING@, SETTINGS_SCHEME@),
        text::begins(panes::ACCESSIBILITY@, SETTINGS_SCHEME@),
        !text::begins(KARABINER_DRIVER_URL@, SETTINGS_SCHEME@),
{
    reveal_strlit("x-apple.systempreferences:");
    reveal_strlit("https://github.com/pqrs-org/Karabiner-DriverKit-VirtualHIDDevice/releases");
    reveal_strlit("x-apple.systempreferences:com.apple.preference.security?Extensions");
    reveal_strlit("x-apple.systempreferences:com.apple.preference.security?Privacy_ListenEvent");
    reveal_strlit("x-apple.systempreferences:com.apple.preference.security?Privacy_Accessibility");
    assert(panes::EXTENSIONS@.subrange(0, 26) =~= SETTINGS_SCHEME@);
    assert(panes::INPUT_MONITORING@.subrange(0, 26) =~= SETTINGS_SCHEME@);
    assert(panes::ACCESSIBILITY@.subrange(0, 26) =~= SETTINGS_SCHEME@);
    assert(KARABINER_DRIVER_URL@.subrange(0, 26)[0] == 'h');
    assert(SETTINGS_SCHEME@[0] == 'x');
}

} // verus!
