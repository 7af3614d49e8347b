//! Setup-Assistant-window view-model.
//!
//! Display-free: doctor checks (+ the supervisor's degraded reason, which
//! overrides a green checklist) in, a [`WizardView`] out. The wizard is ordered,
//! stateful, and goal-driven: all steps render as a checklist, the first
//! unsatisfied step is expanded with its instruction and actions, everything
//! else is collapsed. Actions are *indices into the static step table*: the page
//! can only pick from [`crate::wizard::steps`], never send commands or URLs of
//! its own.
//!
//! The daemon executes `doctor`, so an unreachable daemon means no report at
//! all; callers synthesize a failing `daemon` check for that case (see
//! [`daemon_unreachable_checks`]), which honestly lands the wizard on the
//! "Install the KanataBar service" step instead of erroring out.

use vstd::prelude::*;

use crate::doctor::checks;
use crate::ipc::DoctorCheck;
use crate::state::DegradedReason;
use crate::text::number::{self, push_decimal};
use crate::text::{self, starts_with};
use crate::wizard::{self, WizardStep};

verus! {

broadcast use vstd::string::group_string_axioms;

/// Everything the wizard page renders, in step order.
#[derive(Debug, Clone, PartialEq, Eq)]
pub struct WizardView {
    /// One-line summary under the title ("Step 3 of 8" / "Setup complete").
    pub summary: String,
    /// Every checked step is satisfied: the goal state.
    pub done: bool,
    /// Completion panel (only when `done`; the caller supplies it because it
    /// may involve a preset lookup).
    pub completion: Option<Completion>,
    /// Step rows, in wizard order.
    pub rows: Vec<StepRow>,
}

/// The completion panel: a message plus an optional command the *user* runs,
/// rendered as a copyable code chip (same affordance as sudo steps: the page
/// never glues the command into prose).
#[derive(Debug, Clone, PartialEq, Eq)]
pub struct Completion {
    /// Congratulation / next-step message.
    pub message: String,
    /// A `kanatactl preset add …` command to copy, when there is a next step.
    pub command: Option<String>,
}

/// How a step renders.
#[derive(Debug, Clone, Copy, PartialEq, Eq, Structural)]
pub enum StepState {
    /// Satisfied (or before the current step): collapsed, checkmark.
    Done,
    /// The first unsatisfied step: expanded, instruction + actions.
    Current,
    /// After the current step: collapsed, dimmed.
    Pending,
}

/// One step row. `index` is the row's position in [`wizard::steps`]: the
/// page's action messages (`run:<index>` / `open:<index>`) carry it back and
/// the shell validates it against the same static table.
#[derive(Debug, Clone, PartialEq, Eq)]
pub struct StepRow {
    /// Index into `wizard::steps()`.
    pub index: usize,
    /// Step title.
    pub title: String,
    /// Full instruction (rendered only on the current step).
    pub instruction: String,
    /// Render state.
    pub state: StepState,
    /// The current step has a command the wizard can run for the user
    /// ("Do it for me", e.g. driver activation; never sudo).
    pub can_run: bool,
    /// Label for the step's open-target button, when it has one
    /// ("Open System Settings" / "Open download page").
    pub open_label: Option<String>,
    /// A command for the *user* to run, shown as copyable code (sudo steps:
    /// the tray never elevates).
    pub copy: Option<String>,
}

/// How step `i` renders when `current` is the first that is not done.
pub open spec fn state_of(i: int, current: Option<nat>) -> StepState {
    match current {
        None => StepState::Done,
        Some(c) => if i < c {
            StepState::Done
        } else if i == c {
            StepState::Current
        } else {
            StepState::Pending
        },
    }
}

/// The label of the button that opens a target.
pub open spec fn label_of(target: Seq<char>) -> Seq<char> {
    if text::begins(target, wizard::SETTINGS_SCHEME@) {
        "Open System Settings"@
    } else {
        "Open download page"@
    }
}

/// The row shows step `i` in the given state; only the current step carries
/// actions.
pub open spec fn is_row(row: StepRow, i: int, state: StepState) -> bool {
    &&& row.index == i
    &&& row.title@ == wizard::TITLES@[i]@
    &&& row.instruction@ == wizard::INSTRUCTIONS@[i]@
    &&& row.state == state
    &&& row.can_run == (state == StepState::Current && wizard::step_runs(i))
    &&& row.open_label.deep_view() == (match wizard::step_open(i) {
        Some(target) => if state == StepState::Current {
            Some(label_of(target))
        } else {
            None
        },
        None => None,
    })
    &&& row.copy.deep_view() == (if state == StepState::Current {
        wizard::step_copy(i)
    } else {
        None
    })
}

/// The summary under the title.
pub open spec fn summary_of(current: Option<nat>) -> Seq<char> {
    match current {
        None => "Setup complete"@,
        Some(c) => "Step "@ + number::decimal(c + 1) + " of "@ + number::decimal(
            wizard::STEP_COUNT as nat,
        ),
    }
}

/// The completion message when the caller supplies none.
pub const DEFAULT_COMPLETION: &'static str = "All checks passed — you're set up.";

/// Build the view. `completion` is only rendered when every checked step is
/// satisfied (pass `None` when unknown; a default message is used).
pub fn view(
    checks: &[DoctorCheck],
    degraded: Option<DegradedReason>,
    completion: Option<Completion>,
) -> (r: WizardView)
    ensures
        ({
            let current = wizard::next_step(checks@, degraded, 0);
            &&& r.done == (current is None)
            &&& r.summary@ == summary_of(current)
            &&& r.rows@.len() == wizard::STEP_COUNT
            &&& forall|i: int|
                0 <= i < wizard::STEP_COUNT ==> is_row(
                    #[trigger] r.rows@[i],
                    i,
                    state_of(i, current),
                )
            &&& !r.done ==> r.completion is None
            &&& r.done ==> match completion {
                Some(given) => r.completion == Some(given),
                None => r.completion matches Some(shown) && shown.message@ == DEFAULT_COMPLETION@
                    && shown.command is None,
            }
        }),
{
    let table = wizard::steps();
    let current = wizard::first_unsatisfied_index(checks, degraded);
    let ghost cur = wizard::next_step(checks@, degraded, 0);
    let mut rows: Vec<StepRow> = Vec::new();
    let mut i: usize = 0;
    while i < table.len()
        invariant
            i <= table@.len(),
            table@.len() == wizard::STEP_COUNT,
            forall|k: int| 0 <= k < wizard::STEP_COUNT ==> wizard::is_step(#[trigger] table@[k], k),
            match current {
                Some(c) => cur == Some(c as nat),
                None => cur is None,
            },
            rows@.len() == i,
            forall|k: int| 0 <= k < i ==> is_row(#[trigger] rows@[k], k, state_of(k, cur)),
        decreases table@.len() - i,
    {
        assert(wizard::is_step(table@[i as int], i as int));
        let state = match current {
            None => StepState::Done,
            Some(c) => if i < c {
                StepState::Done
            } else if i == c {
                StepState::Current
            } else {
                StepState::Pending
            },
        };
        rows.push(row(i, &table[i], state));
        i += 1;
    }
    let done = current.is_none();
    let summary = match current {
        None => "Setup complete".to_owned(),
        Some(c) => {
            let mut s = "Step ".to_owned();
            push_decimal(&mut s, (c + 1) as u64);
            s.append(" of ");
            push_decimal(&mut s, wizard::STEP_COUNT as u64);
            s
        },
    };
    let shown = if done {
        match completion {
            Some(given) => Some(given),
            None => Some(Completion { message: DEFAULT_COMPLETION.to_owned(), command: None }),
        }
    } else {
        None
    };
    WizardView { summary, done, completion: shown, rows }
}

/// The synthetic report for an unreachable daemon: exactly one failing
/// `daemon` check, so `first_unsatisfied` lands on the install step and the
/// wizard renders honest guidance instead of a bare error.
pub fn daemon_unreachable_checks(err: &str) -> (r: Vec<DoctorCheck>)
    ensures
        r@.len() == 1,
        r@[0].name@ == checks::DAEMON@,
        !r@[0].ok,
        r@[0].detail@ == "daemon unreachable: "@ + err@,
        r@[0].fix_hint.deep_view() == Some(wizard::INSTALL_COMMAND@),
{
    let mut detail = "daemon unreachable: ".to_owned();
    detail.append(err);
    vec![
        DoctorCheck {
            name: checks::DAEMON.to_owned(),
            ok: false,
            detail,
            fix_hint: Some(wizard::INSTALL_COMMAND.to_owned()),
        },
    ]
}

fn row(index: usize, step: &WizardStep, state: StepState) -> (r: StepRow)
    requires
        wizard::is_step(*step, index as int),
    ensures
        is_row(r, index as int, state),
{
    let current = matches!(state, StepState::Current);
    let open_label = match step.open {
        Some(target) => if current {
            if starts_with(target, wizard::SETTINGS_SCHEME) {
                Some("Open System Settings".to_owned())
            } else {
                Some("Open download page".to_owned())
            }
        } else {
            None
        },
        None => None,
    };
    let copy = match step.copy {
        Some(command) => if current {
            Some(command.to_owned())
        } else {
            None
        },
        None => None,
    };
    StepRow {
        index,
        title: step.title.to_owned(),
        instruction: step.instruction.to_owned(),
        state,
        can_run: current && step.run.is_some(),
        open_label,
        copy,
    }
}

/// The checklist is in order: what stands before the current step is done, what
/// follows is pending, and at most one step is current.
pub proof fn rows_are_in_order(current: Option<nat>, i: int, j: int)
    requires
        0 <= i < j < wizard::STEP_COUNT,
    ensures
        state_of(i, current) == StepState::Pending ==> state_of(j, current) == StepState::Pending,
        state_of(j, current) == StepState::Done ==> state_of(i, current) == StepState::Done,
        !(state_of(i, current) == StepState::Current && state_of(j, current)
            == StepState::Current),
{
}

/// An unreachable daemon lands on the step that installs the service.
pub proof fn unreachable_lands_on_install(checks: Seq<DoctorCheck>)
    requires
        checks.len() == 1,
        checks[0].name@ == checks::DAEMON@,
        !checks[0].ok,
    ensures
        wizard::next_step(checks, None, 0) == Some(6nat),
{
    reveal_strlit("daemon");
    reveal_strlit("driver present");
    reveal_strlit("driver version");
    reveal_strlit("karabiner driver");
    reveal_strlit("vhid daemon managed");
    reveal_strlit("input monitoring");
    wizard::next_step_is_first(checks, None, 0);
    // Only the service step's check has the daemon check's name.
    assert forall|i: int| 0 <= i < 6 implies !wizard::unsatisfied(checks, None, i) by {
        if wizard::step_check(i) is Some {
            assert(wizard::step_check(i)->0.len() != checks::DAEMON@.len());
        }
    }
    assert(!checks[0].ok);
    assert(wizard::unsatisfied(checks, None, 6));
}

/// The steps before the next one to do are done, that one is current, and those
/// after it are pending; without one all are done.
pub proof fn states_follow_the_next_step(current: Option<nat>, i: int)
    ensures
        state_of(i, current) == StepState::Current <==> current == Some(i as nat) && i >= 0,
        state_of(i, current) == StepState::Pending <==> current is Some && i > current->0,
        state_of(i, current) == StepState::Done <==> current is None || i < current->0,
{
}

/// Only the step to do next offers to run, open or copy anything, and it offers
/// just what the step has; a settings pane is opened as settings and a download
/// page as a page.
pub proof fn actions_are_the_current_steps(row: StepRow, i: int, state: StepState)
    requires
        0 <= i < wizard::STEP_COUNT,
        is_row(row, i, state),
    ensures
        state != StepState::Current ==> !row.can_run && row.open_label is None && row.copy is None,
        state == StepState::Current ==> {
            &&& row.can_run <==> wizard::step_check(i) == Some("karabiner driver"@)
            &&& row.open_label is Some <==> wizard::step_open(i) is Some
            &&& row.copy.deep_view() == wizard::step_copy(i)
            &&& wizard::step_check(i) == Some("driver present"@) || wizard::step_check(i) == Some(
                "driver version"@,
            ) ==> row.open_label.deep_view() == Some("Open download page"@)
            &&& wizard::step_check(i) == Some("karabiner driver"@) || wizard::step_request(i)
                is Some ==> row.open_label.deep_view() == Some("Open System Settings"@)
        },
        row.index == i,
        row.title@ == wizard::TITLES@[i]@,
        row.instruction@ == wizard::INSTRUCTIONS@[i]@,
{
    wizard::steps_fix_what_their_checks_see(i);
    reveal_strlit("x-apple.systempreferences:");
    reveal_strlit("https://github.com/pqrs-org/Karabiner-DriverKit-VirtualHIDDevice/releases");
    reveal_strlit("x-apple.systempreferences:com.apple.preference.security?Extensions");
    reveal_strlit("x-apple.systempreferences:com.apple.preference.security?Privacy_ListenEvent");
    reveal_strlit("x-apple.systempreferences:com.apple.preference.security?Privacy_Accessibility");
    wizard::settings_panes_are_settings();
    assert(row.open_label is Some <==> row.open_label.deep_view() is Some);
    assert(row.copy is Some <==> row.copy.deep_view() is Some);
}

} // verus!
