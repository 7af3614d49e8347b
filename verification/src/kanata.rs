//! Pure parsers for kanata's CLI/TCP surface.
//!
//! - `kanata --version` output → a comparable version, for the known-good-floor
//!   warning.
//! - kanata TCP NDJSON messages → layer changes, for the live layer relay.
//!
//! Running kanata and the TCP socket are the daemon's I/O; parsing is pure.

pub mod kbd;
pub mod layer;
pub mod noise;

use vstd::prelude::*;

pub use crate::kanata::layer::parse_layer_change;
use crate::paths;
use crate::text::number::{self, parse_digits, push_decimal};
use crate::text::split::{self, split_by};
use crate::text::{
    self, chars_of, contains, is_whitespace, leading, same, to_ascii_lowercase, trim, trim_start_of,
};

verus! {

broadcast use vstd::string::group_string_axioms;

/// A semantic-ish version triple parsed from `kanata --version`.
#[derive(Debug, Clone, Copy, Eq, Ord)]
pub struct Version {
    /// Major.
    pub major: u32,
    /// Minor.
    pub minor: u32,
    /// Patch.
    pub patch: u32,
}

impl PartialEq for Version {
    fn eq(&self, other: &Self) -> (r: bool) {
        self.major == other.major && self.minor == other.minor && self.patch == other.patch
    }
}

impl vstd::std_specs::cmp::PartialEqSpecImpl for Version {
    open spec fn obeys_eq_spec() -> bool {
        true
    }

    open spec fn eq_spec(&self, other: &Self) -> bool {
        self.major == other.major && self.minor == other.minor && self.patch == other.patch
    }
}

impl PartialOrd for Version {
    fn partial_cmp(&self, other: &Self) -> (r: Option<core::cmp::Ordering>) {
        if self.older(other) {
            Some(core::cmp::Ordering::Less)
        } else if other.older(self) {
            Some(core::cmp::Ordering::Greater)
        } else {
            Some(core::cmp::Ordering::Equal)
        }
    }
}

impl vstd::std_specs::cmp::PartialOrdSpecImpl for Version {
    open spec fn obeys_partial_cmp_spec() -> bool {
        true
    }

    open spec fn partial_cmp_spec(&self, other: &Self) -> Option<core::cmp::Ordering> {
        if self.precedes(*other) {
            Some(core::cmp::Ordering::Less)
        } else if other.precedes(*self) {
            Some(core::cmp::Ordering::Greater)
        } else {
            Some(core::cmp::Ordering::Equal)
        }
    }
}

impl Version {
    /// Earlier by major, then minor, then patch.
    pub open spec fn precedes(self, other: Version) -> bool {
        ||| self.major < other.major
        ||| self.major == other.major && self.minor < other.minor
        ||| self.major == other.major && self.minor == other.minor && self.patch < other.patch
    }

    /// Construct a version.
    pub fn new(major: u32, minor: u32, patch: u32) -> (r: Self)
        ensures
            r == (Version { major, minor, patch }),
    {
        Version { major, minor, patch }
    }

    fn older(&self, other: &Version) -> (r: bool)
        ensures
            r == self.precedes(*other),
    {
        self.major < other.major || (self.major == other.major && self.minor < other.minor) || (
        self.major == other.major && self.minor == other.minor && self.patch < other.patch)
    }

    /// The version in the usual notation.
    pub open spec fn text(self) -> Seq<char> {
        number::decimal(self.major as nat) + seq!['.'] + number::decimal(self.minor as nat)
            + seq!['.'] + number::decimal(self.patch as nat)
    }

    /// The version in the usual notation.
    pub fn to_text(&self) -> (r: String)
        ensures
            r@ == self.text(),
    {
        let mut r = String::new();
        push_decimal(&mut r, self.major as u64);
        r.push('.');
        push_decimal(&mut r, self.minor as u64);
        r.push('.');
        push_decimal(&mut r, self.patch as u64);
        assert(r@ =~= self.text());
        r
    }

    /// Any two different versions are ordered, one way only.
    pub proof fn totally_ordered(self, other: Version)
        ensures
            self == other || self.precedes(other) || other.precedes(self),
            !(self.precedes(other) && other.precedes(self)),
            !self.precedes(self),
    {
    }
}

/// Characters that separate the words of `kanata --version` output.
pub open spec fn separators() -> spec_fn(char) -> bool {
    |c: char| text::is_white(c) || c == '(' || c == ')'
}

/// The number that the leading digits of a part write ("0-beta" is 0), if there
/// are digits and the number fits.
pub open spec fn leading_number(part: Seq<char>) -> Option<nat> {
    number::number(part.take(text::lead(part, number::digits()) as int), u32::MAX as nat)
}

/// The version that a word writes: `major.minor` or `major.minor.patch`, after
/// any run of `v`; a missing or unreadable patch is 0.
pub open spec fn version_in(token: Seq<char>) -> Option<Version> {
    let parts = split::parts_of(text::drop_lead(token, text::only('v')), text::only('.'));
    if parts.len() < 2 {
        None
    } else {
        match (leading_number(parts[0]), leading_number(parts[1])) {
            (Some(major), Some(minor)) => Some(
                Version {
                    major: major as u32,
                    minor: minor as u32,
                    patch: if parts.len() < 3 {
                        0
                    } else {
                        match leading_number(parts[2]) {
                            Some(patch) => patch as u32,
                            None => 0,
                        }
                    },
                },
            ),
            _ => None,
        }
    }
}

/// The version that the first word with one writes.
pub open spec fn first_version(tokens: Seq<Seq<char>>) -> Option<Version>
    decreases tokens.len(),
{
    if tokens.len() == 0 {
        None
    } else if version_in(tokens[0]) is Some {
        version_in(tokens[0])
    } else {
        first_version(tokens.skip(1))
    }
}

/// The version that `kanata --version` output names.
pub open spec fn version_named(output: Seq<char>) -> Option<Version> {
    first_version(split::parts_of(output, separators()))
}

/// Extract the first `x.y.z` version from `kanata --version` output, e.g.
/// `kanata 1.7.0` → `1.7.0`. Missing patch defaults to 0.
pub fn parse_version(output: &str) -> (r: Option<Version>)
    ensures
        r == version_named(output@),
{
    let f = |c: char| -> (b: bool)
        ensures
            b == (text::is_white(c) || c == '(' || c == ')'),
        { is_whitespace(c) || c == '(' || c == ')' };
    let tokens = split_by(output, f, Ghost(separators()));
    let ghost all = tokens.deep_view();
    let mut i: usize = 0;
    assert(all.skip(0) =~= all);
    while i < tokens.len()
        invariant
            i <= tokens@.len(),
            all == tokens.deep_view(),
            all == split::parts_of(output@, separators()),
            first_version(all.skip(i as int)) == first_version(all),
        decreases tokens@.len() - i,
    {
        let ghost rest = all.skip(i as int);
        assert(rest[0] == tokens@[i as int]@);
        assert(rest.skip(1) =~= all.skip(i + 1));
        if let Some(version) = parse_token(tokens[i].as_str()) {
            return Some(version);
        }
        i += 1;
    }
    assert(all.skip(i as int) =~= Seq::<Seq<char>>::empty());
    None
}

fn parse_token(token: &str) -> (r: Option<Version>)
    ensures
        r == version_in(token@),
{
    let token = trim_start_of(token, 'v');
    let dot = |c: char| -> (b: bool)
        ensures
            b == (c == '.'),
        { c == '.' };
    let parts = split_by(token.as_str(), dot, Ghost(text::only('.')));
    let ghost seen = parts.deep_view();
    if parts.len() < 2 {
        return None;
    }
    assert(seen[0] == parts@[0]@ && seen[1] == parts@[1]@);
    // Skip tokens that don't start with a `major.minor` numeric pair.
    let major: u32 = match parse_u32(parts[0].as_str()) {
        Some(n) => n,
        None => return None,
    };
    let minor: u32 = match parse_u32(parts[1].as_str()) {
        Some(n) => n,
        None => return None,
    };
    let patch: u32 = if parts.len() < 3 {
        0
    } else {
        assert(seen[2] == parts@[2]@);
        match parse_u32(parts[2].as_str()) {
            Some(n) => n,
            None => 0,
        }
    };
    Some(Version::new(major, minor, patch))
}

fn parse_u32(part: &str) -> (r: Option<u32>)
    ensures
        match r {
            Some(n) => leading_number(part@) == Some(n as nat),
            None => leading_number(part@) is None,
        },
{
    let cs = chars_of(part);
    let f = |c: char| -> (b: bool)
        ensures
            b == number::is_digit(c),
        { '0' <= c && c <= '9' };
    // Stop at the first non-digit (handles "0-beta", "1.7.0-pre").
    let n: usize = leading(cs.as_slice(), f, Ghost(number::digits()));
    let run = vstd::slice::slice_subrange(cs.as_slice(), 0, n);
    let ghost digits = part@.take(n as int);
    assert(run@ =~= digits);
    assert(run@.skip(0) =~= digits);
    proof {
        text::lead_is_longest(part@, number::digits());
        assert(digits.len() > 0 ==> number::digits()(part@[0]) && digits[0] == part@[0]);
    }
    match parse_digits(run, 0, u32::MAX as u64) {
        Some(v) => Some(v as u32),
        None => None,
    }
}

/// What follows a version in its word does not carry its digits on: nothing
/// does, or something else than a digit, as in `-pre`.
pub open spec fn ends_digits(suffix: Seq<char>) -> bool {
    suffix.len() > 0 ==> !number::is_digit(suffix[0])
}

/// The text holds no separator, so it lies within one word.
pub open spec fn one_word(s: Seq<char>) -> bool {
    forall|k: int| 0 <= k < s.len() ==> !separators()(#[trigger] s[k])
}

proof fn leading_number_reads_back(n: nat, suffix: Seq<char>)
    requires
        n <= u32::MAX,
        ends_digits(suffix),
    ensures
        leading_number(number::decimal(n) + suffix) == Some(n),
{
    let digits = number::decimal(n);
    let s = digits + suffix;
    number::decimal_reads_back(n);
    number::number_reads_back(n, u32::MAX as nat);
    assert forall|k: int| 0 <= k < digits.len() implies number::digits()(#[trigger] s[k]) by {
        assert(s[k] == digits[k]);
    }
    if suffix.len() > 0 {
        assert(s[digits.len() as int] == suffix[0]);
    }
    text::lead_is(s, number::digits(), digits.len());
    assert(s.take(digits.len() as int) =~= digits);
}

/// The first part of a text that begins with a number begins with it too.
proof fn first_part_reads_back(n: nat, suffix: Seq<char>)
    requires
        n <= u32::MAX,
        ends_digits(suffix),
    ensures
        leading_number(split::parts_of(number::decimal(n) + suffix, text::only('.'))[0]) == Some(n),
{
    let dot = text::only('.');
    let digits = number::decimal(n);
    let s = digits + suffix;
    number::decimal_reads_back(n);
    let m = text::lead(suffix, text::outside(dot)) as int;
    text::lead_is_longest(suffix, text::outside(dot));
    let head = suffix.take(m);
    assert forall|k: int| 0 <= k < digits.len() + m implies text::outside(dot)(
        #[trigger] s[k],
    ) by {
        if k < digits.len() {
            assert(s[k] == digits[k] && number::is_digit(digits[k]));
        } else {
            assert(s[k] == suffix[k - digits.len()]);
        }
    }
    if m < suffix.len() {
        assert(s[digits.len() + m] == suffix[m]);
    }
    text::lead_is(s, text::outside(dot), (digits.len() + m) as nat);
    assert(s.take(digits.len() + m) =~= digits + head);
    if m >= suffix.len() {
        assert(digits + head =~= s);
    }
    leading_number_reads_back(n, head);
}

/// The word that writes a version after any number of `v`s and before a suffix.
pub open spec fn version_word(v: Version, vs: nat, suffix: Seq<char>) -> Seq<char> {
    Seq::new(vs, |i: int| 'v') + v.text() + suffix
}

/// A version that was written is read back from its word, whether a `v` stands
/// before it or a suffix such as `-pre` behind it.
pub proof fn version_word_reads_back(v: Version, vs: nat, suffix: Seq<char>)
    requires
        ends_digits(suffix),
    ensures
        version_in(version_word(v, vs, suffix)) == Some(v),
        one_word(suffix) ==> one_word(version_word(v, vs, suffix)),
{
    let (a, b, c) = (
        number::decimal(v.major as nat),
        number::decimal(v.minor as nat),
        number::decimal(v.patch as nat),
    );
    let dot = text::only('.');
    let word = version_word(v, vs, suffix);
    let s = v.text() + suffix;
    number::decimal_reads_back(v.major as nat);
    number::decimal_reads_back(v.minor as nat);
    number::decimal_reads_back(v.patch as nat);
    assert(word[vs as int] == a[0]);
    assert(number::is_digit(a[0]));
    text::lead_is(word, text::only('v'), vs);
    assert(text::drop_lead(word, text::only('v')) =~= s);
    split::first_separator_ends_first_part(b, '.', c + suffix, dot);
    split::first_separator_ends_first_part(a, '.', b.push('.') + (c + suffix), dot);
    assert(s =~= a.push('.') + (b.push('.') + (c + suffix)));
    assert(a + Seq::empty() =~= a);
    assert(b + Seq::empty() =~= b);
    leading_number_reads_back(v.major as nat, Seq::empty());
    leading_number_reads_back(v.minor as nat, Seq::empty());
    first_part_reads_back(v.patch as nat, suffix);
    let parts = split::parts_of(s, dot);
    assert(parts[0] == a && parts[1] == b);
    assert(parts[2] == split::parts_of(c + suffix, dot)[0]);
    if one_word(suffix) {
        let t = v.text();
        assert forall|k: int| 0 <= k < word.len() implies !separators()(#[trigger] word[k]) by {
            let i = k - vs;
            if i < 0 {
                assert(word[k] == 'v');
            } else if i < a.len() {
                assert(word[k] == a[i] && number::is_digit(a[i]));
            } else if a.len() < i < a.len() + 1 + b.len() {
                assert(word[k] == b[i - a.len() - 1] && number::is_digit(b[i - a.len() - 1]));
            } else if a.len() + 1 + b.len() < i < t.len() {
                let j = i - a.len() - b.len() - 2;
                assert(word[k] == c[j] && number::is_digit(c[j]));
            } else if i >= t.len() {
                assert(word[k] == suffix[i - t.len()]);
            } else {
                assert(word[k] == '.');
            }
        }
    }
}

/// A version written without a patch is read back with patch 0.
pub proof fn short_version_reads_back(major: u32, minor: u32)
    ensures
        version_in(number::decimal(major as nat).push('.') + number::decimal(minor as nat)) == Some(
            (Version { major, minor, patch: 0 }),
        ),
{
    let (a, b) = (number::decimal(major as nat), number::decimal(minor as nat));
    let dot = text::only('.');
    let s = a.push('.') + b;
    number::decimal_reads_back(major as nat);
    number::decimal_reads_back(minor as nat);
    assert(s[0] == a[0] && number::is_digit(a[0]));
    text::lead_is(s, text::only('v'), 0);
    assert(text::drop_lead(s, text::only('v')) =~= s);
    split::unseparated_is_one_part(b, dot);
    split::first_separator_ends_first_part(a, '.', b, dot);
    assert(a + Seq::empty() =~= a);
    assert(b + Seq::empty() =~= b);
    leading_number_reads_back(major as nat, Seq::empty());
    leading_number_reads_back(minor as nat, Seq::empty());
    assert(split::parts_of(s, dot) =~= seq![a, b]);
}

proof fn later_words_are_searched(before: Seq<Seq<char>>, rest: Seq<Seq<char>>)
    requires
        first_version(before) is None,
    ensures
        first_version(before + rest) == first_version(rest),
    decreases before.len(),
{
    if before.len() == 0 {
        assert(before + rest =~= rest);
    } else {
        assert((before + rest)[0] == before[0]);
        assert((before + rest).skip(1) =~= before.skip(1) + rest);
        later_words_are_searched(before.skip(1), rest);
    }
}

/// The version that a word writes is found in any output: whatever stands
/// before the word, as long as it names no version, and whatever follows it.
pub proof fn version_is_found(
    lead: Seq<char>,
    sep: char,
    word: Seq<char>,
    tail: Seq<char>,
    v: Version,
)
    requires
        version_named(lead) is None,
        separators()(sep),
        one_word(word),
        version_in(word) == Some(v),
        tail.len() > 0 ==> separators()(tail[0]),
    ensures
        version_named(word + tail) == Some(v),
        version_named(lead.push(sep) + word + tail) == Some(v),
{
    let class = separators();
    if tail.len() == 0 {
        assert(word + tail =~= word);
        split::unseparated_is_one_part(word, class);
    } else {
        assert(word + tail =~= word.push(tail[0]) + tail.skip(1));
        split::first_separator_ends_first_part(word, tail[0], tail.skip(1), class);
    }
    let tokens = split::parts_of(word + tail, class);
    assert(tokens[0] == word);
    assert(lead.push(sep) + word + tail =~= lead.push(sep) + (word + tail));
    split::parts_across_a_separator(lead, sep, word + tail, class);
    later_words_are_searched(split::parts_of(lead, class), tokens);
}

/// A version that was written is read back, alone and after the program's name,
/// with a `v` before it, a suffix behind it, and anything after that.
pub proof fn version_reads_back(v: Version, vs: nat, suffix: Seq<char>, tail: Seq<char>)
    requires
        ends_digits(suffix),
        one_word(suffix),
        tail.len() > 0 ==> separators()(tail[0]),
    ensures
        version_named(version_word(v, vs, suffix) + tail) == Some(v),
        version_named("kanata "@ + version_word(v, vs, suffix) + tail) == Some(v),
{
    reveal_strlit("kanata ");
    version_word_reads_back(v, vs, suffix);
    let name = seq!['k', 'a', 'n', 'a', 't', 'a'];
    assert("kanata "@ =~= name.push(' '));
    split::unseparated_is_one_part(name, separators());
    assert(text::drop_lead(name, text::only('v')) =~= name);
    split::unseparated_is_one_part(name, text::only('.'));
    assert(version_in(name) is None);
    reveal_with_fuel(first_version, 2);
    version_is_found(name, ' ', version_word(v, vs, suffix), tail, v);
}

/// A written version holds digits and dots only.
pub proof fn version_text_is_digits_and_dots(v: Version, k: int)
    requires
        0 <= k < v.text().len(),
    ensures
        number::is_digit(v.text()[k]) || v.text()[k] == '.',
{
    let (a, b, c) = (
        number::decimal(v.major as nat),
        number::decimal(v.minor as nat),
        number::decimal(v.patch as nat),
    );
    number::decimal_reads_back(v.major as nat);
    number::decimal_reads_back(v.minor as nat);
    number::decimal_reads_back(v.patch as nat);
    let t = v.text();
    if k < a.len() {
        assert(t[k] == a[k] && number::is_digit(a[k]));
    } else if a.len() < k < a.len() + 1 + b.len() {
        assert(t[k] == b[k - a.len() - 1] && number::is_digit(b[k - a.len() - 1]));
    } else if a.len() + 1 + b.len() < k {
        let j = k - a.len() - b.len() - 2;
        assert(t[k] == c[j] && number::is_digit(c[j]));
    }
}

/// Well-known kanata install locations, in resolution order: `/usr/local/bin`
/// (Intel Homebrew, manual installs, and the historical KanataBar default)
/// before `/opt/homebrew/bin` (Apple-silicon Homebrew). A **fixed allowlist,
/// never `$PATH`**: the root daemon executes this binary as root, and `$PATH`
/// can be influenced from outside. The order is deterministic so the resolved
/// binary, and therefore its Input Monitoring grant, is stable across restarts.
pub const KANATA_BIN_CANDIDATES: [&'static str; 2] = [
    "/usr/local/bin/kanata",
    "/opt/homebrew/bin/kanata",
];

/// The locations that diagnostics name for a home directory.
pub open spec fn alt_locations(home: Seq<char>) -> Seq<Seq<char>> {
    seq![paths::joined(home, ".cargo/bin/kanata"@), "/opt/local/bin/kanata"@]
}

/// kanata locations that are **not** auto-trusted for root execution but are
/// common enough to name in diagnostics: `cargo install kanata` lands in
/// `~/.cargo/bin` and MacPorts in `/opt/local/bin`. The daemon probes these
/// only to turn an unhelpful "not found" into "found at X, point KanataBar at
/// it" guidance; it never *runs* them without an explicit `kanata_bin` in
/// config.toml, the user's informed opt-in.
///
/// Returns the candidate paths for `home`; the caller probes.
pub fn alt_kanata_locations(home: &str) -> (r: Vec<String>)
    ensures
        r.deep_view() == alt_locations(home@),
{
    let r = vec![
        paths::join(home, ".cargo/bin/kanata"),
        "/opt/local/bin/kanata".to_owned(),
    ];
    assert(r.deep_view() =~= alt_locations(home@));
    r
}

/// Whatever the home directory, no diagnosed location is one of the
/// auto-trusted ones.
pub proof fn alt_locations_are_not_trusted(home: Seq<char>, i: int, j: int)
    requires
        0 <= i < alt_locations(home).len(),
        0 <= j < KANATA_BIN_CANDIDATES@.len(),
    ensures
        alt_locations(home)[i] != KANATA_BIN_CANDIDATES@[j]@,
{
    reveal_strlit(".cargo/bin/kanata");
    reveal_strlit("/opt/local/bin/kanata");
    reveal_strlit("/usr/local/bin/kanata");
    reveal_strlit("/opt/homebrew/bin/kanata");
    // The character before `/bin/kanata` tells all of them apart from `.cargo`.
    let alt = alt_locations(home)[i];
    let trusted = KANATA_BIN_CANDIDATES@[j]@;
    if i == 0 {
        let tail = ".cargo/bin/kanata"@;
        assert(!paths::is_absolute(tail));
        assert(alt[alt.len() - 12] == 'o');
        assert(trusted[trusted.len() - 12] != 'o');
    } else {
        assert(alt[1] == 'o' && alt[5] == 'l');
        assert(trusted[1] == 'u' || trusted[5] == 'h');
    }
}

/// kanata's conventional per-user config directory, `~/.config/kanata`, where
/// existing kanata users keep their `.kbd` files. KanataBar doesn't read from
/// here itself (presets point wherever the user likes) but scans it to help a
/// new user turn an existing config into a preset.
pub fn kanata_config_dir(home: &str) -> (r: String)
    ensures
        r@ == paths::joined(home@, ".config/kanata"@),
{
    paths::join(home, ".config/kanata")
}

/// A fault recognizable in kanata's output: conditions a respawn cannot fix, so
/// the supervisor should go `Degraded` with the right hint instead of burning
/// the retry budget.
#[derive(Debug, Clone, Copy, PartialEq, Eq, Structural)]
pub enum StderrFault {
    /// macOS denied device access: Input Monitoring not granted (or silently
    /// invalidated by a binary update).
    PermissionDenied,
    /// Another process holds the device exclusively (second remapper).
    DeviceInUse,
    /// kanata's TCP port is taken (another kanata/kanata-tray, or a leftover
    /// process); respawning cannot fix it while the squatter lives.
    PortInUse,
}

/// The line says so, in whatever ASCII case.
pub open spec fn says(line: Seq<char>, phrase: Seq<char>) -> bool {
    text::occurs(text::lower(line), phrase)
}

/// A permission denial.
pub open spec fn says_denied(line: Seq<char>) -> bool {
    ||| says(line, "privilege violation"@)
    ||| says(line, "not permitted"@)
    ||| says(line, "input monitoring permission"@)
}

/// A device held by someone else.
pub open spec fn says_device_held(line: Seq<char>) -> bool {
    ||| says(line, "exclusive access"@)
    ||| says(line, "already open"@)
}

/// A TCP port held by someone else.
pub open spec fn says_port_held(line: Seq<char>) -> bool {
    ||| says(line, "address already in use"@)
    ||| says(line, "addrinuse"@)
}

/// The fault that a line tells of.
pub open spec fn fault_of(line: Seq<char>) -> Option<StderrFault> {
    if says_denied(line) {
        Some(StderrFault::PermissionDenied)
    } else if says_device_held(line) {
        Some(StderrFault::DeviceInUse)
    } else if says_port_held(line) {
        Some(StderrFault::PortInUse)
    } else {
        None
    }
}

/// A line that holds, in whatever ASCII case, what macOS says of a denied
/// permission is a denial; otherwise one that speaks of a device in someone
/// else's hands is a held device, and otherwise one that speaks of an address in
/// use is a held port. Nothing else is a fault.
pub proof fn faults_are_what_lines_say(line: Seq<char>)
    ensures
        ({
            let small = text::lower(line);
            let denied = text::occurs(small, "privilege violation"@) || text::occurs(
                small,
                "not permitted"@,
            ) || text::occurs(small, "input monitoring permission"@);
            let held = text::occurs(small, "exclusive access"@) || text::occurs(
                small,
                "already open"@,
            );
            let port = text::occurs(small, "address already in use"@) || text::occurs(
                small,
                "addrinuse"@,
            );
            &&& fault_of(line) == Some(StderrFault::PermissionDenied) <==> denied
            &&& fault_of(line) == Some(StderrFault::DeviceInUse) <==> held && !denied
            &&& fault_of(line) == Some(StderrFault::PortInUse) <==> port && !held && !denied
            &&& fault_of(line) is None <==> !denied && !held && !port
        }),
{
}

/// The case of a line's letters does not matter: two lines that differ in it only
/// tell of the same.
pub proof fn case_does_not_matter(a: Seq<char>, b: Seq<char>)
    requires
        text::lower(a) == text::lower(b),
    ensures
        fault_of(a) == fault_of(b),
        backend_event_of(a) == backend_event_of(b),
{
}

/// Classify one line of kanata output for a give-up-worthy fault, or `None`.
///
/// Patterns from real kanata errors:
/// - Input Monitoring missing:
///   `IOHIDDeviceOpen error: (iokit/common) privilege violation`, or the newer
///   "kanata needs macOS Input Monitoring permission";
/// - device held by another remapper: "exclusive access"/"already open";
/// - the TCP port taken: `AddrInUse`, "Address already in use".
pub fn classify_fault_line(line: &str) -> (r: Option<StderrFault>)
    ensures
        r == fault_of(line@),
{
    let lower = to_ascii_lowercase(line);
    let lower = lower.as_str();
    if contains(lower, "privilege violation") || contains(lower, "not permitted") || contains(
        lower,
        "input monitoring permission",
    ) {
        return Some(StderrFault::PermissionDenied);
    }
    if contains(lower, "exclusive access") || contains(lower, "already open") {
        return Some(StderrFault::DeviceInUse);
    }
    if contains(lower, "address already in use") || contains(lower, "addrinuse") {
        return Some(StderrFault::PortInUse);
    }
    None
}

/// A live output-backend health transition read from kanata's log stream.
/// Unlike [`StderrFault`] these are not exit-adjacent: kanata stays alive,
/// releases the input devices (keys pass through UNREMAPPED), and keeps
/// retrying, so the supervisor tracks them on the *running* child and can
/// recover to `Running` without a respawn.
#[derive(Debug, Clone, Copy, PartialEq, Eq, Structural)]
pub enum BackendEvent {
    /// The DriverKit virtual keyboard is unreachable and kanata released the
    /// input devices.
    Down,
    /// The backend (and console session) came back; kanata re-grabs and
    /// remapping resumes.
    Up,
}

/// The backend came back.
pub open spec fn says_backend_up(line: Seq<char>) -> bool {
    says(line, "output backend and console session ready"@)
}

/// The backend is gone and the input devices were released.
pub open spec fn says_backend_down(line: Seq<char>) -> bool {
    ||| says(line, "output backend not ready after"@)
    ||| says(line, "output backend unavailable"@) && says(line, "releasing input"@)
}

/// The backend transition that a line tells of.
pub open spec fn backend_event_of(line: Seq<char>) -> Option<BackendEvent> {
    if says_backend_up(line) {
        Some(BackendEvent::Up)
    } else if says_backend_down(line) {
        Some(BackendEvent::Down)
    } else {
        None
    }
}

/// The backend is up where a line says that it and the console session are ready,
/// in whatever ASCII case; it is down where a line says that it is not ready yet,
/// or that it is unavailable and the devices are released. Releasing the devices
/// alone, as on a locked screen, says nothing of the backend.
pub proof fn backend_events_are_what_lines_say(line: Seq<char>)
    ensures
        ({
            let small = text::lower(line);
            let up = text::occurs(small, "output backend and console session ready"@);
            let late = text::occurs(small, "output backend not ready after"@);
            let gone = text::occurs(small, "output backend unavailable"@) && text::occurs(
                small,
                "releasing input"@,
            );
            &&& backend_event_of(line) == Some(BackendEvent::Up) <==> up
            &&& backend_event_of(line) == Some(BackendEvent::Down) <==> !up && (late || gone)
            &&& backend_event_of(line) is None <==> !up && !late && !gone
        }),
{
}

/// Classify one line of kanata output for a live backend transition, or `None`.
///
/// - down: `output backend not ready after 10s. Key output may fail until the
///   backend recovers.` and `output backend unavailable — releasing input
///   devices` (kanata's own wait precedes these, so they are already debounced
///   signals).
/// - up: `output backend and console session ready — re-grabbing input devices`.
///
/// Deliberately NOT matched:
/// - `console session paused (lock/user-switch) — releasing input devices`:
///   kanata releases devices on every screen lock; normal, self-recovering.
/// - `output backend unavailable during write` / `(will recover)`: transient
///   write blips kanata absorbs without releasing the devices.
pub fn classify_backend_line(line: &str) -> (r: Option<BackendEvent>)
    ensures
        r == backend_event_of(line@),
{
    let lower = to_ascii_lowercase(line);
    let lower = lower.as_str();
    if contains(lower, "output backend and console session ready") {
        return Some(BackendEvent::Up);
    }
    if contains(lower, "output backend not ready after") || (contains(
        lower,
        "output backend unavailable",
    ) && contains(lower, "releasing input")) {
        return Some(BackendEvent::Down);
    }
    None
}

/// VHID driver-status lines kanata prints raw (no `[LEVEL] timestamp` prefix)
/// while connected to the Karabiner VHID driver. `virtual_hid_keyboard_ready`
/// repeats about once per second forever, which would drown the log; the rest
/// are the one-shot startup handshake in the same family.
pub const VHID_STATUS_NOISE: [&'static str; 6] = [
    "virtual_hid_keyboard_ready true",
    "virtual_hid_keyboard_ready false",
    "connected",
    "driver activated: true",
    "driver connected: true",
    "driver version matched: true",
];

/// The line is heartbeat noise: exactly one of the driver-status lines, but for
/// white space around it.
pub open spec fn vhid_noise(line: Seq<char>) -> bool {
    exists|i: int|
        0 <= i < VHID_STATUS_NOISE@.len() && #[trigger] VHID_STATUS_NOISE@[i]@ == text::trimmed(
            line,
        )
}

/// Is this kanata output line VHID-status heartbeat noise?
///
/// True only for the exact raw driver-status lines above, after trimming, so a
/// genuine `[INFO]`-prefixed kanata line can never be mistaken for noise.
/// Callers relay these at DEBUG instead of INFO; classification (faults,
/// backend health) still runs on every line.
pub fn is_vhid_status_noise(line: &str) -> (r: bool)
    ensures
        r == vhid_noise(line@),
{
    let trimmed = trim(line);
    let mut i: usize = 0;
    while i < 6
        invariant
            i <= 6,
            trimmed@ == text::trimmed(line@),
            forall|k: int|
                0 <= k < i ==> #[trigger] VHID_STATUS_NOISE@[k]@ != text::trimmed(line@),
        decreases 6 - i,
    {
        if same(VHID_STATUS_NOISE[i], trimmed.as_str()) {
            assert(VHID_STATUS_NOISE@[i as int]@ == text::trimmed(line@));
            return true;
        }
        i += 1;
    }
    false
}

} // verus!
