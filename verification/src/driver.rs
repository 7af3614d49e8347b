//! Pure parser for `systemextensionsctl list` (driver preflight).
//!
//! Decides whether the Karabiner-DriverKit-VirtualHIDDevice system extension is
//! `activated enabled`. Running the command is the daemon's I/O; this module
//! parses its text.

use vstd::prelude::*;

use crate::kanata::{self, parse_version, Version};
use crate::text::split::{self, lines};
use crate::text::{self, chars_of, contains, leading, same, slice_of, trailing, trim};

verus! {

broadcast use vstd::string::group_string_axioms;

/// The Karabiner DriverKit extension's state in the registry.
#[derive(Debug, Clone, PartialEq, Eq)]
pub enum DriverState {
    /// `[activated enabled]`: ready to use.
    ActivatedEnabled,
    /// Present but not fully active (e.g. `activated waiting for user`,
    /// `terminated waiting to uninstall on reboot`). Carries the raw state.
    Present {
        /// The bracketed state text.
        state: String,
    },
    /// The extension is not listed at all.
    NotFound,
}

impl DriverState {
    /// Whether the driver is ready (`activated enabled`).
    pub fn is_ready(&self) -> (r: bool)
        ensures
            r == (self is ActivatedEnabled),
    {
        matches!(self, DriverState::ActivatedEnabled)
    }

    /// The message for a state.
    pub open spec fn message_text(self) -> Seq<char> {
        match self {
            DriverState::ActivatedEnabled => "Karabiner driver activated"@,
            DriverState::Present { state } => "Karabiner driver present but not enabled (["@
                + state@ + PRESENT_HINT@,
            DriverState::NotFound => NOT_INSTALLED@,
        }
    }

    /// A user-facing, actionable message for a non-ready state.
    pub fn message(&self) -> (r: String)
        ensures
            r@ == self.message_text(),
    {
        match self {
            DriverState::ActivatedEnabled => "Karabiner driver activated".to_owned(),
            DriverState::Present { state } => {
                let mut r = "Karabiner driver present but not enabled ([".to_owned();
                r.append(state.as_str());
                r.append(PRESENT_HINT);
                r
            },
            DriverState::NotFound => NOT_INSTALLED.to_owned(),
        }
    }
}

/// What follows the state of a driver that is not enabled.
pub const PRESENT_HINT: &'static str =
    "]) — approve it in System Settings → Privacy & Security, or run the Setup Wizard";

/// What is said of a driver that is not listed.
pub const NOT_INSTALLED: &'static str =
    "Karabiner-DriverKit-VirtualHIDDevice not installed — run the Setup Wizard";

/// The bundle/name substring identifying the Karabiner virtual HID extension.
pub const KARABINER_EXTENSION: &'static str = "Karabiner-DriverKit-VirtualHIDDevice";

/// The first of the lines that names the Karabiner extension.
pub open spec fn karabiner_row(rows: Seq<Seq<char>>) -> Option<Seq<char>>
    decreases rows.len(),
{
    if rows.len() == 0 {
        None
    } else if text::occurs(rows[0], KARABINER_EXTENSION@) {
        Some(rows[0])
    } else {
        karabiner_row(rows.skip(1))
    }
}

fn find_row(output: &str) -> (r: Option<String>)
    ensures
        r.deep_view() == karabiner_row(split::lines_of(output@)),
{
    let rows = lines(output);
    let ghost all = rows.deep_view();
    let mut i: usize = 0;
    assert(all.skip(0) =~= all);
    while i < rows.len()
        invariant
            i <= rows@.len(),
            all == rows.deep_view(),
            karabiner_row(all.skip(i as int)) == karabiner_row(all),
            all == split::lines_of(output@),
        decreases rows@.len() - i,
    {
        let ghost rest = all.skip(i as int);
        assert(rest[0] == rows@[i as int]@);
        assert(rest.skip(1) =~= all.skip(i + 1));
        if contains(rows[i].as_str(), KARABINER_EXTENSION) {
            return Some(rows[i].clone());
        }
        i += 1;
    }
    assert(all.skip(i as int) =~= Seq::<Seq<char>>::empty());
    None
}

/// The class of characters that end the version in the bundle column.
pub open spec fn version_end() -> spec_fn(char) -> bool {
    |c: char| c == '/' || c == ')'
}

/// The version in a row's bundle column: between the first `(` and the `/` or
/// `)` that follows it.
pub open spec fn row_version(row: Seq<char>) -> Option<Version> {
    let open = text::lead(row, text::but('(')) as int;
    if open >= row.len() {
        None
    } else {
        let rest = row.skip(open + 1);
        let end = text::lead(rest, text::outside(version_end())) as int;
        if end >= rest.len() {
            None
        } else {
            kanata::version_named(rest.take(end))
        }
    }
}

/// The installed Karabiner driver **extension-bundle** version from
/// `systemextensionsctl list`: the bundle column reads `org.pqrs.… (x.y.z/x.y.z)`;
/// the first number is taken. `None` when the extension is absent or the
/// column is unparseable.
///
/// This is the `.dext` **bundle** version (e.g. `1.8.0`), which pqrs versions
/// **independently of the pkg/release version** (v6.x/v8.x) that kanata release
/// notes reference. The two must not be compared against each other.
pub fn parse_driver_version(output: &str) -> (r: Option<Version>)
    ensures
        r == (match karabiner_row(split::lines_of(output@)) {
            Some(row) => row_version(row),
            None => None,
        }),
{
    let row = match find_row(output) {
        Some(row) => row,
        None => return None,
    };
    let cs = chars_of(row.as_str());
    let not_open = |c: char| -> (b: bool)
        ensures
            b == (c != '('),
        { c != '(' };
    let open: usize = leading(cs.as_slice(), not_open, Ghost(text::but('(')));
    if open >= cs.len() {
        return None;
    }
    let rest = vstd::slice::slice_subrange(cs.as_slice(), open + 1, cs.len());
    assert(rest@ =~= row@.skip(open + 1));
    let not_end = |c: char| -> (b: bool)
        ensures
            b == !(c == '/' || c == ')'),
        { !(c == '/' || c == ')') };
    let end: usize = leading(rest, not_end, Ghost(text::outside(version_end())));
    if end >= rest.len() {
        return None;
    }
    let column = slice_of(rest, 0, end);
    assert(column@ =~= rest@.take(end as int));
    parse_version(column.as_str())
}

/// The Karabiner driver **extension-bundle major** a given kanata release
/// supports. Currently always `None` ("unknown, don't judge"): kanata release
/// notes pin the **pkg** version (e.g. v6.2.0), but `systemextensionsctl`
/// reports the independently-versioned **bundle**, and no reliable pkg↔bundle
/// mapping is known. Until one is, the doctor `driver version` check is
/// report-only.
pub fn supported_driver_major(_kanata: Version) -> (r: Option<u32>)
    ensures
        r is None,
{
    None
}

/// What stands between the last `[` and the last `]` of a row, without white
/// space at its ends; empty when there is no such pair.
pub open spec fn row_state(row: Seq<char>) -> Seq<char> {
    let open = row.len() - 1 - text::trail(row, text::but('['));
    let close = row.len() - 1 - text::trail(row, text::but(']'));
    if 0 <= open < close {
        text::trimmed(row.subrange(open + 1, close))
    } else {
        Seq::empty()
    }
}

/// Parse `systemextensionsctl list` output for the Karabiner extension's state.
///
/// Each extension row ends with a bracketed state such as `[activated enabled]`;
/// we find the Karabiner row and read that bracket.
pub fn parse_systemextensions(output: &str) -> (r: DriverState)
    ensures
        match karabiner_row(split::lines_of(output@)) {
            None => r is NotFound,
            Some(row) => if row_state(row) == "activated enabled"@ {
                r is ActivatedEnabled
            } else {
                r matches DriverState::Present { state } && state@ == row_state(row)
            },
        },
{
    let row = match find_row(output) {
        Some(row) => row,
        None => return DriverState::NotFound,
    };
    let cs = chars_of(row.as_str());
    let not_open = |c: char| -> (b: bool)
        ensures
            b == (c != '['),
        { c != '[' };
    let not_close = |c: char| -> (b: bool)
        ensures
            b == (c != ']'),
        { c != ']' };
    let len: usize = cs.len();
    let after_open: usize = len - trailing(cs.as_slice(), not_open, Ghost(text::but('[')));
    let after_close: usize = len - trailing(cs.as_slice(), not_close, Ghost(text::but(']')));
    // Each is one past the bracket's position, and 0 where there is none.
    let state = if after_open > 0 && after_open < after_close {
        trim(slice_of(cs.as_slice(), after_open, after_close - 1).as_str())
    } else {
        // Karabiner row present but no bracketed state we recognize.
        String::new()
    };
    assert(state@ =~= row_state(row@));
    proof {
        reveal_strlit("activated enabled");
    }
    if same(state.as_str(), "activated enabled") {
        DriverState::ActivatedEnabled
    } else {
        DriverState::Present { state }
    }
}

/// The row that is read is the first one that names the extension.
pub proof fn the_row_names_the_extension(rows: Seq<Seq<char>>)
    ensures
        match karabiner_row(rows) {
            Some(row) => exists|i: int|
                0 <= i < rows.len() && #[trigger] rows[i] == row && text::occurs(
                    row,
                    "Karabiner-DriverKit-VirtualHIDDevice"@,
                ) && forall|j: int|
                    0 <= j < i ==> !text::occurs(
                        #[trigger] rows[j],
                        "Karabiner-DriverKit-VirtualHIDDevice"@,
                    ),
            None => forall|i: int|
                0 <= i < rows.len() ==> !text::occurs(
                    #[trigger] rows[i],
                    "Karabiner-DriverKit-VirtualHIDDevice"@,
                ),
        },
    decreases rows.len(),
{
    if rows.len() > 0 {
        let rest = rows.skip(1);
        the_row_names_the_extension(rest);
        if text::occurs(rows[0], KARABINER_EXTENSION@) {
            assert(rows[0] == karabiner_row(rows)->0);
        } else {
            assert forall|j: int| 0 < j < rows.len() implies #[trigger] rows[j] == rest[j - 1] by {}
            if let Some(row) = karabiner_row(rest) {
                let i = choose|i: int|
                    0 <= i < rest.len() && #[trigger] rest[i] == row && text::occurs(
                        row,
                        "Karabiner-DriverKit-VirtualHIDDevice"@,
                    ) && forall|j: int|
                        0 <= j < i ==> !text::occurs(
                            #[trigger] rest[j],
                            "Karabiner-DriverKit-VirtualHIDDevice"@,
                        );
                assert(rows[i + 1] == row);
                assert forall|j: int| 0 <= j < i + 1 implies !text::occurs(
                    #[trigger] rows[j],
                    "Karabiner-DriverKit-VirtualHIDDevice"@,
                ) by {
                    if j > 0 {
                        assert(!text::occurs(
                            rest[j - 1],
                            "Karabiner-DriverKit-VirtualHIDDevice"@,
                        ));
                    }
                }
            } else {
                assert forall|j: int| 0 <= j < rows.len() implies !text::occurs(
                    #[trigger] rows[j],
                    "Karabiner-DriverKit-VirtualHIDDevice"@,
                ) by {
                    if j > 0 {
                        assert(!text::occurs(
                            rest[j - 1],
                            "Karabiner-DriverKit-VirtualHIDDevice"@,
                        ));
                    }
                }
            }
        }
    }
}

/// What a row says in its last brackets is read back, without the white space at
/// its ends.
pub proof fn bracketed_states_read_back(before: Seq<char>, state: Seq<char>, after: Seq<char>)
    requires
        forall|k: int| 0 <= k < state.len() ==> #[trigger] state[k] != '[',
        forall|k: int| 0 <= k < after.len() ==> #[trigger] after[k] != '[' && after[k] != ']',
    ensures
        row_state(before + seq!['['] + state + seq![']'] + after) == text::trimmed(state),
{
    let row = before + seq!['['] + state + seq![']'] + after;
    let close = before.len() + 1 + state.len();
    assert(row[before.len() as int] == '[');
    assert(row[close as int] == ']');
    assert forall|k: int| before.len() < k < row.len() implies text::but('[')(
        #[trigger] row[k],
    ) by {
        if k < close {
            assert(row[k] == state[k - before.len() - 1]);
        } else if k > close {
            assert(row[k] == after[k - close - 1]);
        }
    }
    assert forall|k: int| close < k < row.len() implies text::but(']')(#[trigger] row[k]) by {
        assert(row[k] == after[k - close - 1]);
    }
    text::trail_is(row, text::but('['), (row.len() - before.len() - 1) as nat);
    text::trail_is(row, text::but(']'), after.len());
    assert(row.subrange(before.len() as int + 1, close as int) =~= state);
}

/// The version of the bundle column is read back: the first number in the first
/// round brackets.
pub proof fn bundle_versions_read_back(before: Seq<char>, v: Version, end: char, after: Seq<char>)
    requires
        forall|k: int| 0 <= k < before.len() ==> #[trigger] before[k] != '(',
        end == '/' || end == ')',
    ensures
        row_version(before + seq!['('] + v.text() + seq![end] + after) == Some(v),
{
    let row = before + seq!['('] + v.text() + seq![end] + after;
    let open = before.len() as int;
    assert forall|k: int| 0 <= k < open implies text::but('(')(#[trigger] row[k]) by {
        assert(row[k] == before[k]);
    }
    assert(row[open] == '(');
    text::lead_is(row, text::but('('), before.len());
    let rest = row.skip(open + 1);
    let none = Seq::<char>::empty();
    kanata::version_word_reads_back(v, 0, none);
    kanata::version_reads_back(v, 0, none, none);
    assert(kanata::version_word(v, 0, none) =~= v.text());
    assert(v.text() + none =~= v.text());
    let n = v.text().len();
    assert forall|k: int| 0 <= k < n implies text::outside(version_end())(#[trigger] rest[k]) by {
        assert(rest[k] == v.text()[k]);
        kanata::version_text_is_digits_and_dots(v, k);
    }
    assert(rest[n as int] == end);
    text::lead_is(rest, text::outside(version_end()), n);
    assert(rest.take(n as int) =~= v.text());
}

} // verus!
