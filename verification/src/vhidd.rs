//! Pure rules for Karabiner VirtualHIDDevice-daemon supervision.
//!
//! The driver pkg installs the daemon binary but registers **no LaunchDaemon**:
//! unless something keeps it running, every reboot leaves kanata dead.
//! KanataBar supervises it via its own LaunchDaemon, but only when nothing else
//! already does (Karabiner-Elements, or a user-made plist such as the community
//! `org.pqrs.karabiner-daemon`). **Never run a second instance.**
//!
//! Running `launchctl` and stat'ing the daemon binary are I/O of the installer
//! and the daemon; this module is the parsing and the decision.

use vstd::prelude::*;

use crate::text::split::{self, lines, split_whitespace};
use crate::text::{self, chars_of, contains, same, stands_at, to_ascii_lowercase, trailing};

verus! {

broadcast use vstd::string::group_string_axioms;

/// launchd label for KanataBar's own VHID-daemon job.
pub const VHIDD_LABEL: &'static str = "io.github.ibimal.kanatabar.vhidd";

/// Where the driver pkg installs the daemon binary.
pub const VHIDD_BINARY: &'static str =
    "/Library/Application Support/org.pqrs/Karabiner-DriverKit-VirtualHIDDevice/Applications/Karabiner-VirtualHIDDevice-Daemon.app/Contents/MacOS/Karabiner-VirtualHIDDevice-Daemon";

/// The extension-activation manager the driver pkg installs (hidden in
/// /Applications: the dot is intentional). Activation is `<MANAGER_BINARY>
/// activate`, run **without** sudo in the logged-in user's session; the tray
/// wizard runs it.
pub const MANAGER_BINARY: &'static str =
    "/Applications/.Karabiner-VirtualHIDDevice-Manager.app/Contents/MacOS/Karabiner-VirtualHIDDevice-Manager";

/// Who (if anyone) keeps the VHID daemon alive.
#[derive(Debug, Clone, PartialEq, Eq)]
pub enum VhiddManagement {
    /// KanataBar's own LaunchDaemon ([`VHIDD_LABEL`]) is registered.
    Ours,
    /// Some other Karabiner-related launchd job exists (Karabiner-Elements'
    /// services, or a user plist like `org.pqrs.karabiner-daemon`). Carries
    /// the first matching label.
    Other(String),
    /// Nothing supervises the daemon: the reboot-leaves-kanata-dead case
    /// `kanatactl install` fixes.
    Unmanaged,
}

/// What `doctor` says when nothing manages the daemon.
pub const UNMANAGED_TEXT: &'static str =
    "no LaunchDaemon keeps the Karabiner VirtualHIDDevice daemon running — it will not survive a reboot";

impl VhiddManagement {
    /// The one-liner for `doctor`.
    pub open spec fn text(self) -> Seq<char> {
        match self {
            Self::Ours => "managed by KanataBar's LaunchDaemon"@,
            Self::Other(label) => "managed by `"@ + label@ + "` (not ours; left alone)"@,
            Self::Unmanaged => UNMANAGED_TEXT@,
        }
    }

    /// A user-facing one-liner for `doctor`.
    pub fn describe(&self) -> (r: String)
        ensures
            r@ == self.text(),
    {
        match self {
            Self::Ours => "managed by KanataBar's LaunchDaemon".to_owned(),
            Self::Other(label) => {
                let mut r = "managed by `".to_owned();
                r.append(label.as_str());
                r.append("` (not ours; left alone)");
                r
            },
            Self::Unmanaged => UNMANAGED_TEXT.to_owned(),
        }
    }
}

/// The third word of each line that has one.
pub open spec fn third_words(rows: Seq<Seq<char>>) -> Seq<Seq<char>>
    decreases rows.len(),
{
    if rows.len() == 0 {
        Seq::empty()
    } else {
        let before = third_words(rows.drop_last());
        let words = split::words_of(rows.last());
        if words.len() >= 3 {
            before.push(words[2])
        } else {
            before
        }
    }
}

/// The labels in `launchctl list` output: everything under the header line.
pub open spec fn labels_in(output: Seq<char>) -> Seq<Seq<char>> {
    let rows = split::lines_of(output);
    if rows.len() == 0 {
        Seq::empty()
    } else {
        third_words(rows.skip(1))
    }
}

/// Extract the label column from `launchctl list` output (header
/// `PID\tStatus\tLabel`, one job per line; labels contain no whitespace).
pub fn parse_launchctl_list(output: &str) -> (r: Vec<String>)
    ensures
        r.deep_view() == labels_in(output@),
{
    let rows = lines(output);
    let mut labels: Vec<String> = Vec::new();
    let ghost all = rows.deep_view();
    assert(labels.deep_view() =~= Seq::<Seq<char>>::empty());
    if rows.len() == 0 {
        return labels;
    }
    let mut i: usize = 1;
    let ghost body = all.skip(1);
    while i < rows.len()
        invariant
            1 <= i <= rows@.len(),
            all == rows.deep_view(),
            body == all.skip(1),
            labels.deep_view() == third_words(body.take(i - 1)),
        decreases rows@.len() - i,
    {
        let ghost before = labels.deep_view();
        assert(body.take(i as int).drop_last() =~= body.take(i - 1));
        assert(body.take(i as int).last() == rows@[i as int]@);
        let words = split_whitespace(rows[i].as_str());
        assert(words.deep_view().len() == words@.len());
        if words.len() >= 3 {
            assert(words.deep_view()[2] == words@[2]@);
            labels.push(words[2].clone());
            assert(labels.deep_view() =~= before.push(words@[2]@));
        }
        i += 1;
    }
    assert(body.take(i - 1) =~= body);
    labels
}

/// The class of hexadecimal digits.
pub open spec fn hex() -> spec_fn(char) -> bool {
    |c: char| ('0' <= c <= '9') || ('a' <= c <= 'f') || ('A' <= c <= 'F')
}

/// At `at` begins a `-0x` that is followed by hexadecimal digits only, at least
/// one.
pub open spec fn instance_token_at(label: Seq<char>, at: int) -> bool {
    &&& text::occurs_at(label, "-0x"@, at)
    &&& at + 3 < label.len()
    &&& forall|k: int| at + 3 <= k < label.len() ==> hex()(#[trigger] label[k])
}

/// The label ends in `-0x` and hexadecimal digits: a per-process instance
/// (`<bundle-id>-0x<token>`) rather than a plist-backed service. DriverKit
/// extensions and app extensions show up in `launchctl list` this way. An
/// instance label is the *driver running*, not something that supervises the
/// VHID daemon, and must not count as management.
pub open spec fn instance_label(label: Seq<char>) -> bool {
    exists|at: int| instance_token_at(label, at)
}

fn is_instance_label(label: &str) -> (r: bool)
    ensures
        r == instance_label(label@),
{
    let cs = chars_of(label);
    let prefix = chars_of("-0x");
    let f = |c: char| -> (b: bool)
        ensures
            b == hex()(c),
        { ('0' <= c && c <= '9') || ('a' <= c && c <= 'f') || ('A' <= c && c <= 'F') };
    let n: usize = trailing(cs.as_slice(), f, Ghost(hex()));
    let len: usize = cs.len();
    proof {
        reveal_strlit("-0x");
        text::trail_is_longest(label@, hex());
        if exists|at: int| instance_token_at(label@, at) {
            let at = choose|at: int| instance_token_at(label@, at);
            let part = label@.subrange(at, at + 3);
            assert(part[2] == 'x');
            assert(label@[at + 2] == part[2]);
            text::trail_is(label@, hex(), (len - at - 3) as nat);
        }
    }
    if n == 0 || len - n < 3 {
        return false;
    }
    let r = stands_at(cs.as_slice(), prefix.as_slice(), len - n - 3);
    proof {
        if r {
            assert(instance_token_at(label@, len - n - 3));
        }
    }
    r
}

/// The label is that of a plist-backed Karabiner service.
pub open spec fn manages(label: Seq<char>) -> bool {
    !instance_label(label) && text::occurs(text::lower(label), "karabiner"@)
}

/// The first label of another Karabiner service.
pub open spec fn first_manager(labels: Seq<Seq<char>>) -> Option<Seq<char>>
    decreases labels.len(),
{
    if labels.len() == 0 {
        None
    } else if first_manager(labels.drop_last()) is Some {
        first_manager(labels.drop_last())
    } else if manages(labels.last()) {
        Some(labels.last())
    } else {
        None
    }
}

/// This is who manages the VHID daemon, by the system-domain launchd labels.
pub open spec fn management_is(labels: Seq<Seq<char>>, management: VhiddManagement) -> bool {
    if labels.contains(VHIDD_LABEL@) {
        management is Ours
    } else {
        match first_manager(labels) {
            Some(label) => management matches VhiddManagement::Other(l) && l@ == label,
            None => management is Unmanaged,
        }
    }
}

/// Classify who manages the VHID daemon from the system-domain launchd labels:
/// our own label wins, else any plist-backed service label mentioning
/// `karabiner` (case-insensitive: Karabiner-Elements services and community
/// plists all match; the driver extension's own `-0x…` process instance does
/// **not**), else unmanaged.
pub fn classify(labels: &Vec<String>) -> (r: VhiddManagement)
    ensures
        management_is(labels.deep_view(), r),
{
    let mut other: Option<String> = None;
    let ghost all = labels.deep_view();
    let mut i: usize = 0;
    while i < labels.len()
        invariant
            i <= labels@.len(),
            all == labels.deep_view(),
            other.deep_view() == first_manager(all.take(i as int)),
            forall|k: int| 0 <= k < i ==> #[trigger] all[k] != VHIDD_LABEL@,
        decreases labels@.len() - i,
    {
        let label = labels[i].as_str();
        assert(all[i as int] == label@);
        assert(all.take(i + 1).drop_last() =~= all.take(i as int));
        if same(label, VHIDD_LABEL) {
            assert(all.contains(VHIDD_LABEL@));
            return VhiddManagement::Ours;
        }
        if other.is_none() && !is_instance_label(label) && contains(
            to_ascii_lowercase(label).as_str(),
            "karabiner",
        ) {
            other = Some(labels[i].clone());
        }
        i += 1;
    }
    assert(all.take(i as int) =~= all);
    match other {
        Some(label) => VhiddManagement::Other(label),
        None => VhiddManagement::Unmanaged,
    }
}

/// Whether `kanatactl install` should (re)write and bootstrap our vhidd
/// LaunchDaemon: yes when unmanaged (first install) or already ours (refresh);
/// never when someone else manages the daemon, and never without the daemon
/// binary on disk (driver not installed yet, the wizard step comes first).
pub fn should_install(management: &VhiddManagement, daemon_binary_present: bool) -> (r: bool)
    ensures
        r == (daemon_binary_present && !(management is Other)),
{
    daemon_binary_present && matches!(
        management,
        VhiddManagement::Ours | VhiddManagement::Unmanaged
    )
}

/// Never a second instance: where another Karabiner service is registered and
/// ours is not, whatever [`classify`] may answer tells the installer to keep its
/// hands off.
pub proof fn never_a_second_instance(labels: Seq<Seq<char>>, management: VhiddManagement)
    requires
        !labels.contains(VHIDD_LABEL@),
        exists|i: int| 0 <= i < labels.len() && manages(#[trigger] labels[i]),
        management_is(labels, management),
    ensures
        management is Other,
{
    let i = choose|i: int| 0 <= i < labels.len() && manages(#[trigger] labels[i]);
    first_manager_found(labels, i);
}

proof fn first_manager_found(labels: Seq<Seq<char>>, i: int)
    requires
        0 <= i < labels.len(),
        manages(labels[i]),
    ensures
        first_manager(labels) is Some,
    decreases labels.len(),
{
    if i < labels.len() - 1 {
        assert(labels.drop_last()[i] == labels[i]);
        first_manager_found(labels.drop_last(), i);
    }
}

// ── Labels, character by character ──────────────────────────────────────────

/// From `at` on, the label spells Karabiner's name, each letter large or small.
pub open spec fn names_karabiner_at(label: Seq<char>, at: int) -> bool {
    &&& 0 <= at
    &&& at + 9 <= label.len()
    &&& label[at + 0] == 'k' || label[at + 0] == 'K'
    &&& label[at + 1] == 'a' || label[at + 1] == 'A'
    &&& label[at + 2] == 'r' || label[at + 2] == 'R'
    &&& label[at + 3] == 'a' || label[at + 3] == 'A'
    &&& label[at + 4] == 'b' || label[at + 4] == 'B'
    &&& label[at + 5] == 'i' || label[at + 5] == 'I'
    &&& label[at + 6] == 'n' || label[at + 6] == 'N'
    &&& label[at + 7] == 'e' || label[at + 7] == 'E'
    &&& label[at + 8] == 'r' || label[at + 8] == 'R'
}

/// From `at` to its end, the label is a dash, `0x`, and one or more of the digits
/// `0` to `9` and letters `a` to `f` or `A` to `F`.
pub open spec fn ends_in_token_at(label: Seq<char>, at: int) -> bool {
    &&& 0 <= at
    &&& at + 3 < label.len()
    &&& label[at] == '-' && label[at + 1] == '0' && label[at + 2] == 'x'
    &&& forall|k: int|
        at + 3 <= k < label.len() ==> '0' <= #[trigger] label[k] <= '9' || 'a' <= label[k] <= 'f'
            || 'A' <= label[k] <= 'F'
}

/// The label names Karabiner and is not that of one running process.
pub open spec fn names_a_service(label: Seq<char>) -> bool {
    &&& exists|at: int| names_karabiner_at(label, at)
    &&& !exists|at: int| ends_in_token_at(label, at)
}

/// Karabiner's name in small letters is its name in any letters.
pub proof fn name_by_letters(label: Seq<char>, at: int)
    ensures
        text::occurs_at(text::lower(label), "karabiner"@, at) <==> names_karabiner_at(label, at),
{
    reveal_strlit("karabiner");
    let name = "karabiner"@;
    let small = text::lower(label);
    if 0 <= at && at + 9 <= label.len() {
        let part = small.subrange(at, at + 9);
        assert(name.len() == 9);
        assert forall|k: int| 0 <= k < 9 implies #[trigger] part[k] == text::ascii_lower(
            label[at + k],
        ) by {}
        if names_karabiner_at(label, at) {
            assert forall|k: int| 0 <= k < 9 implies part[k] == name[k] by {
                assert(k == 0 || k == 1 || k == 2 || k == 3 || k == 4 || k == 5 || k == 6 || k == 7
                    || k == 8);
            }
            assert(part =~= name);
        }
        if part == name {
            assert(part[0] == 'k' && part[1] == 'a' && part[2] == 'r' && part[3] == 'a');
            assert(part[4] == 'b' && part[5] == 'i' && part[6] == 'n' && part[7] == 'e');
            assert(part[8] == 'r');
        }
    }
}

proof fn token_by_characters(label: Seq<char>, at: int)
    ensures
        instance_token_at(label, at) <==> ends_in_token_at(label, at),
{
    reveal_strlit("-0x");
    if 0 <= at && at + 3 <= label.len() {
        let part = label.subrange(at, at + 3);
        assert(part[0] == label[at] && part[1] == label[at + 1] && part[2] == label[at + 2]);
        if ends_in_token_at(label, at) {
            assert(part =~= "-0x"@);
        }
    }
    if ends_in_token_at(label, at) {
        assert forall|k: int| at + 3 <= k < label.len() implies hex()(#[trigger] label[k]) by {}
    }
    if instance_token_at(label, at) {
        assert forall|k: int| at + 3 <= k < label.len() implies '0' <= #[trigger] label[k] <= '9'
            || 'a' <= label[k] <= 'f' || 'A' <= label[k] <= 'F' by {
            assert(hex()(label[k]));
        }
    }
}

proof fn service_by_characters(label: Seq<char>)
    ensures
        manages(label) <==> names_a_service(label),
{
    let small = text::lower(label);
    if exists|at: int| names_karabiner_at(label, at) {
        let at = choose|at: int| names_karabiner_at(label, at);
        name_by_letters(label, at);
        assert(text::occurs_at(small, "karabiner"@, at));
    }
    if text::occurs(small, "karabiner"@) {
        let at = choose|at: int| text::occurs_at(small, "karabiner"@, at);
        name_by_letters(label, at);
    }
    if exists|at: int| ends_in_token_at(label, at) {
        let at = choose|at: int| ends_in_token_at(label, at);
        token_by_characters(label, at);
        assert(instance_token_at(label, at));
    }
    if instance_label(label) {
        let at = choose|at: int| instance_token_at(label, at);
        token_by_characters(label, at);
    }
}

proof fn first_service(labels: Seq<Seq<char>>)
    ensures
        match first_manager(labels) {
            Some(label) => exists|i: int|
                0 <= i < labels.len() && #[trigger] labels[i] == label && names_a_service(label)
                    && forall|j: int| 0 <= j < i ==> !names_a_service(#[trigger] labels[j]),
            None => forall|i: int| 0 <= i < labels.len() ==> !names_a_service(#[trigger] labels[i]),
        },
    decreases labels.len(),
{
    if labels.len() > 0 {
        let before = labels.drop_last();
        first_service(before);
        service_by_characters(labels.last());
        assert forall|i: int| 0 <= i < before.len() implies #[trigger] labels[i] == before[i] by {}
        if let Some(label) = first_manager(before) {
            let i = choose|i: int|
                0 <= i < before.len() && #[trigger] before[i] == label && names_a_service(label)
                    && forall|j: int| 0 <= j < i ==> !names_a_service(#[trigger] before[j]);
            assert(labels[i] == label);
            assert forall|j: int| 0 <= j < i implies !names_a_service(#[trigger] labels[j]) by {
                assert(!names_a_service(before[j]));
            }
        } else {
            assert forall|j: int| 0 <= j < before.len() implies !names_a_service(
                #[trigger] labels[j],
            ) by {
                assert(!names_a_service(before[j]));
            }
            assert(labels[labels.len() - 1] == labels.last());
        }
    }
}

/// Who manages the VHID daemon, by what the labels spell. Our own label, wherever
/// it stands, is ours. Without it, the first label that names Karabiner, in
/// whatever case, and is not that of a running process is the other manager; and
/// without such a label nobody is.
pub proof fn management_by_what_labels_spell(
    labels: Seq<Seq<char>>,
    management: VhiddManagement,
)
    requires
        management_is(labels, management),
    ensures
        management is Ours <==> exists|i: int|
            0 <= i < labels.len() && #[trigger] labels[i] == "io.github.ibimal.kanatabar.vhidd"@,
        management matches VhiddManagement::Other(label) ==> exists|i: int|
            0 <= i < labels.len() && #[trigger] labels[i] == label@ && names_a_service(label@)
                && forall|j: int| 0 <= j < i ==> !names_a_service(#[trigger] labels[j]),
        !(management is Ours) && (exists|i: int|
            0 <= i < labels.len() && names_a_service(#[trigger] labels[i])) ==> management is Other,
        management is Unmanaged ==> forall|i: int|
            0 <= i < labels.len() ==> !names_a_service(#[trigger] labels[i]),
{
    first_service(labels);
    if labels.contains(VHIDD_LABEL@) {
        let i = choose|i: int| 0 <= i < labels.len() && labels[i] == VHIDD_LABEL@;
        assert(labels[i] == "io.github.ibimal.kanatabar.vhidd"@);
    }
}

/// Where a label other than ours names Karabiner, nothing of ours is installed
/// beside it, whether or not the daemon binary is there.
pub proof fn other_managers_keep_the_daemon(
    labels: Seq<Seq<char>>,
    management: VhiddManagement,
    i: int,
    at: int,
)
    requires
        management_is(labels, management),
        !labels.contains(VHIDD_LABEL@),
        0 <= i < labels.len(),
        names_karabiner_at(labels[i], at),
        forall|k: int| !ends_in_token_at(labels[i], k),
    ensures
        management is Other,
{
    management_by_what_labels_spell(labels, management);
    assert(names_a_service(labels[i]));
}

/// Each row with three words gives its third word as a label, and there are no
/// more labels than rows.
pub proof fn labels_are_third_words(rows: Seq<Seq<char>>, i: int)
    requires
        0 <= i < rows.len(),
        split::words_of(rows[i]).len() >= 3,
    ensures
        third_words(rows).contains(split::words_of(rows[i])[2]),
        third_words(rows).len() <= rows.len(),
    decreases rows.len(),
{
    let before = rows.drop_last();
    third_words_fit(rows);
    if i < rows.len() - 1 {
        assert(before[i] == rows[i]);
        labels_are_third_words(before, i);
        let label = split::words_of(rows[i])[2];
        let k = choose|k: int| 0 <= k < third_words(before).len() && third_words(before)[k] == label;
        assert(third_words(rows)[k] == label);
    } else {
        assert(third_words(rows)[third_words(rows).len() - 1] == split::words_of(rows[i])[2]);
    }
}

/// Each label is the third word of a row.
pub proof fn labels_come_from_rows(rows: Seq<Seq<char>>, k: int)
    requires
        0 <= k < third_words(rows).len(),
    ensures
        exists|i: int|
            0 <= i < rows.len() && split::words_of(#[trigger] rows[i]).len() >= 3
                && split::words_of(rows[i])[2] == third_words(rows)[k],
    decreases rows.len(),
{
    if rows.len() > 0 {
        let before = rows.drop_last();
        if k < third_words(before).len() {
            labels_come_from_rows(before, k);
            let i = choose|i: int|
                0 <= i < before.len() && split::words_of(#[trigger] before[i]).len() >= 3
                    && split::words_of(before[i])[2] == third_words(before)[k];
            assert(rows[i] == before[i]);
        } else {
            assert(rows[rows.len() - 1] == rows.last());
        }
    }
}

proof fn third_words_fit(rows: Seq<Seq<char>>)
    ensures
        third_words(rows).len() <= rows.len(),
    decreases rows.len(),
{
    if rows.len() > 0 {
        third_words_fit(rows.drop_last());
    }
}

/// The labels are read from every row but the first, which is the header: no row
/// below it is passed over, and what the header says does not matter.
pub proof fn the_header_is_no_label(a: Seq<char>, b: Seq<char>, i: int)
    ensures
        1 <= i < split::lines_of(a).len() && split::words_of(split::lines_of(a)[i]).len() >= 3
            ==> labels_in(a).contains(split::words_of(split::lines_of(a)[i])[2]),
        split::lines_of(a).len() <= 1 ==> labels_in(a) == Seq::<Seq<char>>::empty(),
        split::lines_of(a).len() > 0 && split::lines_of(b).len() > 0 && split::lines_of(a).skip(1)
            == split::lines_of(b).skip(1) ==> labels_in(a) == labels_in(b),
{
    let rows = split::lines_of(a);
    if 1 <= i < rows.len() && split::words_of(rows[i]).len() >= 3 {
        assert(rows.skip(1)[i - 1] == rows[i]);
        labels_are_third_words(rows.skip(1), i - 1);
    }
    if rows.len() == 1 {
        assert(rows.skip(1) =~= Seq::empty());
    }
}

} // verus!
