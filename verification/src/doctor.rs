//! Shared `doctor` vocabulary.
//!
//! `doctor` runs the full preflight and reports a `DoctorReport`; the tray's
//! first-run wizard is UI over the *same* checks. Running the checks is the
//! daemon's I/O; what lives here is the part every side must agree on: the
//! **stable check names** (so the wizard can map a step to the check that
//! verifies it, and scripts can key off them) and the **pass/fail
//! aggregation**.

pub mod checks;

use vstd::prelude::*;

use crate::ipc::DoctorCheck;
use crate::text::number::{self, push_decimal};
use crate::text::{self, same};
use crate::text::split::{self, join};

verus! {

broadcast use vstd::string::group_string_axioms;

/// Every check name, in the canonical report order.
pub const ALL_CHECKS: [&'static str; 12] = [
    checks::DAEMON,
    checks::KANATA_BINARY,
    checks::DRIVER_PRESENT,
    checks::DRIVER,
    checks::DRIVER_VERSION,
    checks::VHID_DAEMON,
    checks::VHID_MANAGED,
    checks::INPUT_MONITORING,
    checks::CONTROL_SOCKET,
    checks::ACTIVE_CONFIG,
    checks::CONFIG_FILE,
    checks::SUPERVISOR,
];

/// The setup-class checks: the wizard owns their fix, and the doctor window
/// delegates their failures to it. Everything else in [`ALL_CHECKS`] is
/// runtime-class (doctor-only).
pub const SETUP_CHECKS: [&'static str; 6] = [
    checks::DRIVER_PRESENT,
    checks::DRIVER_VERSION,
    checks::DRIVER,
    checks::VHID_MANAGED,
    checks::INPUT_MONITORING,
    checks::DAEMON,
];

/// The name is the `i`-th setup-class check.
pub open spec fn setup_check_at(name: Seq<char>, i: int) -> bool {
    0 <= i < SETUP_CHECKS@.len() && SETUP_CHECKS@[i]@ == name
}

/// The name is that of a setup-class check.
pub open spec fn setup_check(name: Seq<char>) -> bool {
    exists|i: int| setup_check_at(name, i)
}

/// Whether `name` is a setup-class check.
pub fn is_setup_check(name: &str) -> (r: bool)
    ensures
        r == setup_check(name@),
{
    let mut i: usize = 0;
    while i < 6
        invariant
            i <= 6,
            forall|k: int| 0 <= k < i ==> !setup_check_at(name@, k),
        decreases 6 - i,
    {
        if same(SETUP_CHECKS[i], name) {
            assert(setup_check_at(name@, i as int));
            return true;
        }
        i += 1;
    }
    false
}

/// Every setup-class check of the report passed.
pub open spec fn setup_passed(checks: Seq<DoctorCheck>) -> bool {
    forall|i: int|
        0 <= i < checks.len() && setup_check(#[trigger] checks[i].name@) ==> checks[i].ok
}

/// Every check of the report passed.
pub open spec fn passed(checks: Seq<DoctorCheck>) -> bool {
    forall|i: int| 0 <= i < checks.len() ==> (#[trigger] checks[i]).ok
}

/// The names of the failed checks, in report order.
pub open spec fn failed_names(checks: Seq<DoctorCheck>) -> Seq<Seq<char>>
    decreases checks.len(),
{
    if checks.len() == 0 {
        Seq::empty()
    } else {
        let before = failed_names(checks.drop_last());
        if checks.last().ok {
            before
        } else {
            before.push(checks.last().name@)
        }
    }
}

/// Setup is complete ⇔ every setup-class check passes. Drives the wizard's
/// auto-open (and never-auto-open-again) behavior. Checks absent from the
/// report don't count as failing: a partial report (e.g. daemon unreachable
/// produces only the daemon check) still evaluates honestly.
pub fn setup_complete(checks: &[DoctorCheck]) -> (r: bool)
    ensures
        r == setup_passed(checks@),
{
    let mut i: usize = 0;
    while i < checks.len()
        invariant
            i <= checks@.len(),
            forall|k: int|
                0 <= k < i && setup_check(#[trigger] checks@[k].name@) ==> checks@[k].ok,
        decreases checks@.len() - i,
    {
        if is_setup_check(checks[i].name.as_str()) && !checks[i].ok {
            return false;
        }
        i += 1;
    }
    true
}

/// True when every check passed: the overall doctor verdict.
pub fn all_ok(checks: &[DoctorCheck]) -> (r: bool)
    ensures
        r == passed(checks@),
{
    let mut i: usize = 0;
    while i < checks.len()
        invariant
            i <= checks@.len(),
            forall|k: int| 0 <= k < i ==> (#[trigger] checks@[k]).ok,
        decreases checks@.len() - i,
    {
        if !checks[i].ok {
            return false;
        }
        i += 1;
    }
    true
}

/// The names of the failed checks, in report order.
fn failures(checks: &[DoctorCheck]) -> (r: Vec<String>)
    ensures
        r.deep_view() == failed_names(checks@),
        r@.len() <= checks@.len(),
{
    let mut names: Vec<String> = Vec::new();
    let mut i: usize = 0;
    assert(names.deep_view() =~= Seq::<Seq<char>>::empty());
    while i < checks.len()
        invariant
            i <= checks@.len(),
            names@.len() <= i,
            names.deep_view() == failed_names(checks@.take(i as int)),
        decreases checks@.len() - i,
    {
        let ghost before = names.deep_view();
        assert(checks@.take(i + 1).drop_last() =~= checks@.take(i as int));
        assert(checks@.take(i + 1).last() == checks@[i as int]);
        if !checks[i].ok {
            names.push(checks[i].name.clone());
            assert(names.deep_view() =~= before.push(checks@[i as int].name@));
        }
        i += 1;
    }
    assert(checks@.take(i as int) =~= checks@);
    names
}

/// How many checks failed (for a one-line summary in the tray/notification).
pub fn failed_count(checks: &[DoctorCheck]) -> (r: usize)
    ensures
        r == failed_names(checks@).len(),
{
    let names = failures(checks);
    assert(names.deep_view().len() == names@.len());
    names.len()
}

/// The mark before a check's line.
pub open spec fn mark(ok: bool) -> Seq<char> {
    if ok {
        "✅"@
    } else {
        "❌"@
    }
}

/// What the report says of one check: its mark, name and detail on a line, and
/// its fix hint, if it has one, on a second.
pub open spec fn check_lines(check: DoctorCheck) -> Seq<char> {
    let line = mark(check.ok) + " "@ + check.name@ + ": "@ + check.detail@ + "\n"@;
    match check.fix_hint {
        Some(hint) => line + "   ↳ "@ + hint@ + "\n"@,
        None => line,
    }
}

/// What the report says of the checks, one after the other.
pub open spec fn all_lines(checks: Seq<DoctorCheck>) -> Seq<char>
    decreases checks.len(),
{
    if checks.len() == 0 {
        Seq::empty()
    } else {
        all_lines(checks.drop_last()) + check_lines(checks.last())
    }
}

/// The line that closes the report.
pub open spec fn verdict(failed: nat) -> Seq<char> {
    if failed == 0 {
        "\nAll checks passed.\n"@
    } else {
        "\n"@ + number::decimal(failed) + " check(s) failed.\n"@
    }
}

/// The full report.
pub open spec fn report(checks: Seq<DoctorCheck>) -> Seq<char> {
    all_lines(checks) + verdict(failed_names(checks).len())
}

/// Render the full checklist as human-readable text: one `✅/❌ name: detail`
/// line per check, each failure's `fix_hint` beneath it, and a summary line.
/// Shared so the CLI (`kanatactl doctor`) and the tray's "Run Doctor" (which
/// has no terminal, so it opens this as a file) show the identical report.
pub fn format_report(checks: &[DoctorCheck]) -> (r: String)
    ensures
        r@ == report(checks@),
{
    let mut out = String::new();
    let mut i: usize = 0;
    while i < checks.len()
        invariant
            i <= checks@.len(),
            out@ == all_lines(checks@.take(i as int)),
        decreases checks@.len() - i,
    {
        let ghost before = out@;
        assert(checks@.take(i + 1).drop_last() =~= checks@.take(i as int));
        let check = &checks[i];
        out.append(
            if check.ok {
                "✅"
            } else {
                "❌"
            },
        );
        out.append(" ");
        out.append(check.name.as_str());
        out.append(": ");
        out.append(check.detail.as_str());
        out.append("\n");
        if let Some(hint) = &check.fix_hint {
            out.append("   ↳ ");
            out.append(hint.as_str());
            out.append("\n");
        }
        assert(out@ =~= before + check_lines(checks@[i as int]));
        i += 1;
    }
    assert(checks@.take(i as int) =~= checks@);
    let failed: usize = failed_count(checks);
    let ghost lines = out@;
    if failed == 0 {
        out.append("\nAll checks passed.\n");
    } else {
        out.append("\n");
        push_decimal(&mut out, failed as u64);
        out.append(" check(s) failed.\n");
    }
    assert(out@ =~= lines + verdict(failed as nat));
    out
}

/// The one-line summary of failed checks.
pub open spec fn summary(names: Seq<Seq<char>>) -> Seq<char> {
    number::decimal(names.len()) + " check(s) need attention: "@ + split::joined(names, ", "@)
}

/// A one-line notification summary naming the failing checks (banner-friendly:
/// no newlines). `None` when every check passed. The full detail lives in
/// [`format_report`].
pub fn format_failures_summary(checks: &[DoctorCheck]) -> (r: Option<String>)
    ensures
        r.deep_view() == (if failed_names(checks@).len() == 0 {
            None
        } else {
            Some(summary(failed_names(checks@)))
        }),
{
    let names = failures(checks);
    assert(names.deep_view().len() == names@.len());
    if names.len() == 0 {
        return None;
    }
    let mut out = String::new();
    push_decimal(&mut out, names.len() as u64);
    out.append(" check(s) need attention: ");
    out.append(join(&names, ", ").as_str());
    assert(out@ =~= summary(failed_names(checks@)));
    Some(out)
}

// ── What holds of the vocabulary ────────────────────────────────────────────

/// All green ⇔ no check failed.
pub proof fn passed_iff_none_failed(checks: Seq<DoctorCheck>)
    ensures
        passed(checks) <==> failed_names(checks).len() == 0,
    decreases checks.len(),
{
    if checks.len() > 0 {
        let before = checks.drop_last();
        passed_iff_none_failed(before);
        if passed(checks) {
            assert forall|i: int| 0 <= i < before.len() implies (#[trigger] before[i]).ok by {
                assert(checks[i].ok);
            }
            assert(checks[checks.len() - 1].ok);
        }
        if passed(before) && checks.last().ok {
            assert forall|i: int| 0 <= i < checks.len() implies (#[trigger] checks[i]).ok by {
                if i < before.len() {
                    assert(before[i].ok);
                }
            }
        }
    }
}

/// All green implies that setup is complete; a runtime-class failure alone
/// never makes setup incomplete.
pub proof fn setup_follows(checks: Seq<DoctorCheck>)
    ensures
        passed(checks) ==> setup_passed(checks),
        (forall|i: int|
            0 <= i < checks.len() && !(#[trigger] checks[i]).ok ==> !setup_check(checks[i].name@))
            ==> setup_passed(checks),
{
}

/// Every setup-class check is a check.
pub proof fn setup_checks_are_checks(i: int)
    requires
        0 <= i < SETUP_CHECKS@.len(),
    ensures
        exists|j: int| 0 <= j < ALL_CHECKS@.len() && #[trigger] ALL_CHECKS@[j]@ == SETUP_CHECKS@[i]@,
{
    let j: int = if i == 0 {
        2
    } else if i == 1 {
        4
    } else if i == 2 {
        3
    } else if i == 3 {
        6
    } else if i == 4 {
        7
    } else {
        0
    };
    assert(ALL_CHECKS@[j]@ == SETUP_CHECKS@[i]@);
}

/// No two checks share a name.
pub proof fn check_names_are_distinct(i: int, j: int)
    requires
        0 <= i < j < ALL_CHECKS@.len(),
    ensures
        ALL_CHECKS@[i]@ != ALL_CHECKS@[j]@,
{
    reveal_strlit("daemon");
    reveal_strlit("kanata binary");
    reveal_strlit("driver present");
    reveal_strlit("karabiner driver");
    reveal_strlit("driver version");
    reveal_strlit("vhid daemon");
    reveal_strlit("vhid daemon managed");
    reveal_strlit("input monitoring");
    reveal_strlit("control socket");
    reveal_strlit("active config");
    reveal_strlit("config file");
    reveal_strlit("supervisor");
    // Names of one length differ in their first or their eighth character.
    let a = ALL_CHECKS@[i]@;
    let b = ALL_CHECKS@[j]@;
    assert(a.len() != b.len() || a[0] != b[0] || a[7] != b[7]);
}

/// The text holds no line feed.
pub open spec fn one_line(s: Seq<char>) -> bool {
    forall|k: int| 0 <= k < s.len() ==> #[trigger] s[k] != '\n'
}

/// The summary is a single line whenever the check names are.
pub proof fn summary_is_one_line(names: Seq<Seq<char>>)
    requires
        forall|i: int| 0 <= i < names.len() ==> one_line(#[trigger] names[i]),
    ensures
        one_line(summary(names)),
{
    reveal_strlit(" check(s) need attention: ");
    reveal_strlit(", ");
    number::decimal_reads_back(names.len());
    joined_is_one_line(names, ", "@);
    let d = number::decimal(names.len());
    assert forall|k: int| 0 <= k < summary(names).len() implies #[trigger] summary(names)[k]
        != '\n' by {
        if k < d.len() {
            assert(number::is_digit(d[k]));
        }
    }
}

proof fn joined_is_one_line(parts: Seq<Seq<char>>, sep: Seq<char>)
    requires
        forall|i: int| 0 <= i < parts.len() ==> one_line(#[trigger] parts[i]),
        one_line(sep),
    ensures
        one_line(split::joined(parts, sep)),
    decreases parts.len(),
{
    if parts.len() > 1 {
        assert forall|i: int| 0 <= i < parts.drop_last().len() implies one_line(
            #[trigger] parts.drop_last()[i],
        ) by {
            assert(one_line(parts[i]));
        }
        joined_is_one_line(parts.drop_last(), sep);
        assert(one_line(parts[parts.len() - 1]));
    }
}

/// The failures are the names of the checks that did not pass, one for each, in
/// the order of the report.
pub proof fn failures_are_the_checks_that_failed(checks: Seq<DoctorCheck>)
    ensures
        failed_names(checks) == checks.filter(|c: DoctorCheck| !c.ok).map_values(
            |c: DoctorCheck| c.name@,
        ),
    decreases checks.len(),
{
    let failing = |c: DoctorCheck| !c.ok;
    let name = |c: DoctorCheck| c.name@;
    reveal(Seq::filter);
    if checks.len() > 0 {
        failures_are_the_checks_that_failed(checks.drop_last());
        let before = checks.drop_last().filter(failing);
        if !checks.last().ok {
            assert(before.push(checks.last()).map_values(name) =~= before.map_values(name).push(
                checks.last().name@,
            ));
        }
    } else {
        assert(checks.filter(failing).map_values(name) =~= Seq::empty());
    }
}

proof fn found_between(before: Seq<char>, part: Seq<char>, after: Seq<char>)
    ensures
        text::occurs(before + part + after, part),
{
    let all = before + part + after;
    assert(all.subrange(before.len() as int, (before.len() + part.len()) as int) =~= part);
    assert(text::occurs_at(all, part, before.len() as int));
}

proof fn found_earlier(all: Seq<char>, head: Seq<char>, tail: Seq<char>, part: Seq<char>)
    requires
        all == head + tail,
        text::occurs(head, part),
    ensures
        text::occurs(all, part),
{
    let at = choose|at: int| text::occurs_at(head, part, at);
    assert(all.subrange(at, at + part.len()) =~= head.subrange(at, at + part.len()));
    assert(text::occurs_at(all, part, at));
}

proof fn lines_hold_every_check(checks: Seq<DoctorCheck>, i: int)
    requires
        0 <= i < checks.len(),
    ensures
        text::occurs(all_lines(checks), check_lines(checks[i])),
    decreases checks.len(),
{
    let before = checks.drop_last();
    if i < before.len() {
        lines_hold_every_check(before, i);
        assert(before[i] == checks[i]);
        found_earlier(
            all_lines(checks),
            all_lines(before),
            check_lines(checks.last()),
            check_lines(checks[i]),
        );
    } else {
        found_between(all_lines(before), check_lines(checks[i]), Seq::empty());
        assert(all_lines(before) + check_lines(checks[i]) + Seq::<char>::empty() =~= all_lines(
            checks,
        ));
    }
}

/// The report has a line for every check: it begins with a tick exactly where the
/// check passed and with a cross where it failed, and tells its name and its
/// detail; and a hint, where there is one, stands beneath.
pub proof fn the_report_tells_every_check(checks: Seq<DoctorCheck>, i: int)
    requires
        0 <= i < checks.len(),
    ensures
        text::occurs(report(checks), check_lines(checks[i])),
        checks[i].ok ==> check_lines(checks[i])[0] == '✅',
        !checks[i].ok ==> check_lines(checks[i])[0] == '❌',
        text::occurs(
            check_lines(checks[i]),
            checks[i].name@ + ": "@ + checks[i].detail@ + "\n"@,
        ),
        checks[i].fix_hint matches Some(hint) ==> text::occurs(
            check_lines(checks[i]),
            "   ↳ "@ + hint@ + "\n"@,
        ),
{
    reveal_strlit("✅");
    reveal_strlit("❌");
    let c = checks[i];
    let none = Seq::<char>::empty();
    lines_hold_every_check(checks, i);
    found_earlier(
        report(checks),
        all_lines(checks),
        verdict(failed_names(checks).len()),
        check_lines(c),
    );
    let line = mark(c.ok) + " "@ + c.name@ + ": "@ + c.detail@ + "\n"@;
    assert(line[0] == mark(c.ok)[0]);
    assert(check_lines(c)[0] == line[0]);
    let told = c.name@ + ": "@ + c.detail@ + "\n"@;
    assert(line =~= (mark(c.ok) + " "@) + told + none);
    found_between(mark(c.ok) + " "@, told, none);
    if let Some(hint) = c.fix_hint {
        let second = "   ↳ "@ + hint@ + "\n"@;
        assert(check_lines(c) =~= line + second);
        found_earlier(check_lines(c), line, second, told);
        assert(check_lines(c) =~= line + second + none);
        found_between(line, second, none);
    }
}

/// The report closes with success exactly when every check passed, and otherwise
/// with how many did not.
pub proof fn the_verdict_counts_failures(checks: Seq<DoctorCheck>)
    ensures
        (forall|i: int| 0 <= i < checks.len() ==> (#[trigger] checks[i]).ok) ==> report(checks)
            == all_lines(checks) + "\nAll checks passed.\n"@,
        !(forall|i: int| 0 <= i < checks.len() ==> (#[trigger] checks[i]).ok) ==> report(checks)
            == all_lines(checks) + ("\n"@ + number::decimal(
            checks.filter(|c: DoctorCheck| !c.ok).len(),
        ) + " check(s) failed.\n"@),
{
    failures_are_the_checks_that_failed(checks);
    passed_iff_none_failed(checks);
}

/// A check is a matter of setup exactly when its name is one of these six.
pub proof fn setup_checks_are_these(name: Seq<char>)
    ensures
        setup_check(name) <==> name == "driver present"@ || name == "driver version"@ || name
            == "karabiner driver"@ || name == "vhid daemon managed"@ || name == "input monitoring"@
            || name == "daemon"@,
{
    if setup_check(name) {
        let i = choose|i: int| setup_check_at(name, i);
        assert(i == 0 || i == 1 || i == 2 || i == 3 || i == 4 || i == 5);
    }
    assert(name == "driver present"@ ==> setup_check_at(name, 0));
    assert(name == "driver version"@ ==> setup_check_at(name, 1));
    assert(name == "karabiner driver"@ ==> setup_check_at(name, 2));
    assert(name == "vhid daemon managed"@ ==> setup_check_at(name, 3));
    assert(name == "input monitoring"@ ==> setup_check_at(name, 4));
    assert(name == "daemon"@ ==> setup_check_at(name, 5));
}

} // verus!
