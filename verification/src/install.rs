//! `kanatactl install`/`uninstall`: what goes where, and what the installer
//! does with what it finds.
//!
//! Installing writes the launchd job plists, copies the daemon/CLI/tray
//! binaries to `/usr/local/bin`, creates `/Library/Logs/KanataBar` (launchd does
//! not create `StandardOutPath`'s parent directory, so it must exist before the
//! job is bootstrapped), and bootstraps/boots out the jobs via `launchctl`.
//!
//! Real installs run as root (`sudo kanatactl install`). `prefix` and
//! `skip_launchctl` on [`InstallConfig`] let the same file layout be exercised
//! against another directory, unprivileged, without a real launchd.
//!
//! [`plan`] lists the steps; carrying them out is the shell's. [`disk`] states what
//! an uninstall leaves of any disk, by the names that [`places`] tells apart.

pub mod disk;
pub mod files;
pub mod jobs;
pub mod places;
pub mod plan;
pub mod resources;

use vstd::prelude::*;

pub use crate::install::plan::{install, uninstall, InstallReport, UninstallReport};
pub use crate::vhidd::VHIDD_LABEL;
use crate::paths::{self, names};
use crate::text::number::{self, parse_number, push_decimal};
use crate::text::split::{self, replace};
use crate::text::{self, chars_of, slice_of};
use crate::vhidd;

verus! {

broadcast use vstd::string::group_string_axioms;

/// launchd label for the root daemon job.
pub const DAEMON_LABEL: &'static str = "io.github.ibimal.kanatabar.daemon";

/// The app bundle the pkg installs; absent on tarball installs.
pub const APP_BUNDLE: &'static str = "/Applications/KanataBar.app";

/// The tray binary inside the bundle: the agent's program when bundled.
pub const BUNDLED_TRAY: &'static str =
    "/Applications/KanataBar.app/Contents/MacOS/kanatabar-tray";

/// The tray binary on tarball installs (`kanatactl install` copies it there).
pub const UNBUNDLED_TRAY: &'static str = "/usr/local/bin/kanatabar-tray";

/// KanataBar's bundle identifier.
pub const BUNDLE_ID: &'static str = "io.github.ibimal.kanatabar";

/// launchd label for the per-user tray job.
pub const AGENT_LABEL: &'static str = "io.github.ibimal.kanatabar.agent";

/// Absolute path: an installer running as root must not resolve `launchctl`
/// via `PATH`.
pub const LAUNCHCTL: &'static str = "/bin/launchctl";

// ── The agent plist ─────────────────────────────────────────────────────────

/// The agent plist for a home directory and a tray program.
pub open spec fn agent_plist_text(home: Seq<char>, tray_bin: Seq<char>) -> Seq<char> {
    split::replaced(
        split::replaced(resources::AGENT_PLIST_TEMPLATE@, "__HOME__"@, home),
        "__TRAY_BIN__"@,
        tray_bin,
    )
}

/// Render the per-user agent plist, substituting the `__HOME__` placeholder
/// with the target user's home directory and `__TRAY_BIN__` with the tray
/// program to run ([`BUNDLED_TRAY`] on pkg installs, [`UNBUNDLED_TRAY`] on
/// tarball installs). `/Library/Logs/KanataBar` is root-owned so the
/// (unprivileged) agent logs under the user's own home instead.
pub fn render_agent_plist(home: &str, tray_bin: &str) -> (r: String)
    ensures
        r@ == agent_plist_text(home@, tray_bin@),
{
    proof {
        reveal_strlit("__HOME__");
        reveal_strlit("__TRAY_BIN__");
    }
    let with_home = replace(resources::AGENT_PLIST_TEMPLATE, "__HOME__", home);
    replace(with_home.as_str(), "__TRAY_BIN__", tray_bin)
}

// ── What to install ─────────────────────────────────────────────────────────

/// Which component(s) an install/uninstall touches (`--daemon-only`/
/// `--agent-only`).
#[derive(Debug, Clone, Copy, PartialEq, Eq, Structural)]
pub enum Component {
    Daemon,
    Agent,
    Both,
}

impl Component {
    /// The daemon is among the components.
    pub fn wants_daemon(self) -> (r: bool)
        ensures
            r == (self != Component::Agent),
    {
        matches!(self, Component::Daemon | Component::Both)
    }

    /// The agent is among the components.
    pub fn wants_agent(self) -> (r: bool)
        ensures
            r == (self != Component::Daemon),
    {
        matches!(self, Component::Agent | Component::Both)
    }
}

/// How and where to install/uninstall.
#[derive(Debug, Clone)]
pub struct InstallConfig {
    /// Root prefix for every installed path; `/` in production.
    pub prefix: String,
    /// Skip `launchctl bootstrap`/`bootout`: a fake `prefix` has no plist
    /// launchd can actually load. Production always runs it.
    pub skip_launchctl: bool,
    /// What to install.
    pub component: Component,
}

impl Default for InstallConfig {
    fn default() -> (r: Self)
        ensures
            r.prefix@ == "/"@,
            !r.skip_launchctl,
            r.component == Component::Both,
    {
        InstallConfig {
            prefix: "/".to_owned(),
            skip_launchctl: false,
            component: Component::Both,
        }
    }
}

/// The user the agent job is installed for.
#[derive(Debug, Clone, PartialEq, Eq)]
pub struct TargetUser {
    pub uid: u32,
    pub gid: u32,
    pub home: String,
}

/// Why the user to install for could not be told.
#[derive(Debug, Clone, Copy, PartialEq, Eq, Structural)]
pub enum TargetUserError {
    /// `SUDO_UID` is set but is no user id.
    BadSudoUid,
    /// `SUDO_UID` is not set and the console's owner cannot be read.
    NoConsole,
}

impl TargetUserError {
    /// What to tell the user.
    pub fn describe(self) -> (r: &'static str)
        ensures
            r@ == match self {
                Self::BadSudoUid => "parsing SUDO_UID"@,
                Self::NoConsole => "no SUDO_UID and /dev/console is unreadable; run via sudo"@,
            },
    {
        match self {
            Self::BadSudoUid => "parsing SUDO_UID",
            Self::NoConsole => "no SUDO_UID and /dev/console is unreadable; run via sudo",
        }
    }
}

/// Resolve the user to install the agent for: `SUDO_UID` (set by `sudo`, the
/// documented invocation) if present, else the console user (owner of
/// `/dev/console`).
pub fn target_uid(
    sudo_uid: Option<&str>,
    console_uid: Option<u32>,
) -> (r: Result<u32, TargetUserError>)
    ensures
        match sudo_uid {
            Some(text) => match number::number(text@, u32::MAX as nat) {
                Some(uid) => r == Ok::<u32, TargetUserError>(uid as u32),
                None => r == Err::<u32, TargetUserError>(TargetUserError::BadSudoUid),
            },
            None => match console_uid {
                Some(uid) => r == Ok::<u32, TargetUserError>(uid),
                None => r == Err::<u32, TargetUserError>(TargetUserError::NoConsole),
            },
        },
{
    match sudo_uid {
        Some(text) => match parse_number(text, u32::MAX as u64) {
            Some(uid) => Ok(uid as u32),
            None => Err(TargetUserError::BadSudoUid),
        },
        None => match console_uid {
            Some(uid) => Ok(uid),
            None => Err(TargetUserError::NoConsole),
        },
    }
}

// ── Paths below the prefix ──────────────────────────────────────────────────

/// A path without the separators and `.` components that it starts with.
pub open spec fn trim_left(s: Seq<char>) -> Seq<char>
    decreases s.len(),
{
    if s.len() > 0 && s[0] == '/' {
        trim_left(s.skip(1))
    } else if s.len() > 0 && s[0] == '.' && (s.len() == 1 || s[1] == '/') {
        trim_left(s.skip(1))
    } else {
        s
    }
}

/// A path without the separators and `.` components that it ends with.
pub open spec fn trim_right(s: Seq<char>) -> Seq<char>
    decreases s.len(),
{
    if s.len() > 0 && s.last() == '/' {
        trim_right(s.drop_last())
    } else if s.len() > 0 && s.last() == '.' && (s.len() == 1 || s[s.len() - 2] == '/') {
        trim_right(s.drop_last())
    } else {
        s
    }
}

/// The path is the root directory, however it is written.
pub open spec fn is_root(path: Seq<char>) -> bool {
    paths::is_absolute(path) && trim_left(path).len() == 0
}

/// An absolute path relative to the root; a relative one as it is.
pub open spec fn relative(path: Seq<char>) -> Seq<char> {
    if paths::is_absolute(path) {
        trim_right(trim_left(path))
    } else {
        path
    }
}

/// The path below the prefix; the path itself when the prefix is the root.
pub open spec fn under_path(prefix: Seq<char>, path: Seq<char>) -> Seq<char> {
    if is_root(prefix) {
        path
    } else {
        paths::joined(prefix, relative(path))
    }
}

fn trimmed_left(cs: &Vec<char>) -> (r: usize)
    ensures
        r <= cs@.len(),
        trim_left(cs@) == cs@.skip(r as int),
{
    let len: usize = cs.len();
    let mut i: usize = 0;
    assert(cs@.skip(0) =~= cs@);
    while i < len
        invariant
            i <= len,
            len == cs@.len(),
            trim_left(cs@) == trim_left(cs@.skip(i as int)),
        decreases len - i,
    {
        let ghost rest = cs@.skip(i as int);
        assert(rest[0] == cs@[i as int]);
        assert(rest.skip(1) =~= cs@.skip(i + 1));
        if i + 1 < len {
            assert(rest[1] == cs@[i + 1]);
        }
        if cs[i] == '/' || (cs[i] == '.' && (i + 1 == len || cs[i + 1] == '/')) {
            i += 1;
        } else {
            return i;
        }
    }
    i
}

fn trimmed_right(cs: &Vec<char>) -> (r: usize)
    ensures
        r <= cs@.len(),
        trim_right(cs@) == cs@.take(r as int),
{
    let mut n: usize = cs.len();
    assert(cs@.take(n as int) =~= cs@);
    while n > 0
        invariant
            n <= cs@.len(),
            trim_right(cs@) == trim_right(cs@.take(n as int)),
        decreases n,
    {
        let ghost rest = cs@.take(n as int);
        assert(rest.last() == cs@[n - 1]);
        assert(rest.drop_last() =~= cs@.take(n - 1));
        if cs[n - 1] == '/' || (cs[n - 1] == '.' && (n == 1 || cs[n - 2] == '/')) {
            n -= 1;
        } else {
            return n;
        }
    }
    n
}

/// Whether the prefix is the root directory: a real install.
pub fn is_real(prefix: &str) -> (r: bool)
    ensures
        r == is_root(prefix@),
{
    let cs = chars_of(prefix);
    let n: usize = trimmed_left(&cs);
    assert(cs@.skip(n as int).len() == cs@.len() - n);
    cs.len() > 0 && cs[0] == '/' && n == cs.len()
}

/// Join an absolute path onto `prefix`; identity when `prefix` is `/`.
pub fn under(prefix: &str, path: &str) -> (r: String)
    ensures
        r@ == under_path(prefix@, path@),
{
    if is_real(prefix) {
        return path.to_owned();
    }
    let cs = chars_of(path);
    if cs.len() > 0 && cs[0] == '/' {
        let n: usize = trimmed_left(&cs);
        let rest = slice_of(cs.as_slice(), n, cs.len());
        assert(rest@ =~= cs@.skip(n as int));
        let ds = chars_of(rest.as_str());
        let m: usize = trimmed_right(&ds);
        let body = slice_of(ds.as_slice(), 0, m);
        assert(body@ =~= ds@.take(m as int));
        paths::join(prefix, body.as_str())
    } else {
        paths::join(prefix, path)
    }
}

/// Paths are used verbatim in production.
pub proof fn under_root_is_identity(path: Seq<char>)
    ensures
        under_path("/"@, path) == path,
{
    reveal_strlit("/");
    reveal_with_fuel(trim_left, 2);
}

/// What is left after trimming neither starts with a separator nor lies outside
/// the text that was trimmed.
proof fn trimmed_is_relative(s: Seq<char>)
    ensures
        !paths::is_absolute(trim_left(s)),
    decreases s.len(),
{
    if s.len() > 0 && (s[0] == '/' || (s[0] == '.' && (s.len() == 1 || s[1] == '/'))) {
        trimmed_is_relative(s.skip(1));
    }
}

proof fn right_trim_keeps_start(s: Seq<char>)
    ensures
        trim_right(s).len() <= s.len(),
        trim_right(s) == s.take(trim_right(s).len() as int),
    decreases s.len(),
{
    if s.len() > 0 && (s.last() == '/' || (s.last() == '.' && (s.len() == 1 || s[s.len() - 2]
        == '/'))) {
        right_trim_keeps_start(s.drop_last());
        assert(s.drop_last().take(trim_right(s).len() as int) =~= s.take(
            trim_right(s).len() as int,
        ));
    } else {
        assert(s.take(s.len() as int) =~= s);
    }
}

/// Nothing lands outside the prefix: below any other prefix than the root,
/// every path starts with that prefix.
pub proof fn everything_stays_under_the_prefix(prefix: Seq<char>, path: Seq<char>)
    requires
        !is_root(prefix),
    ensures
        text::begins(under_path(prefix, path), prefix),
{
    let rel = relative(path);
    if paths::is_absolute(path) {
        trimmed_is_relative(path);
        right_trim_keeps_start(trim_left(path));
        if rel.len() > 0 {
            assert(rel[0] == trim_left(path)[0]);
        }
    }
    assert(!paths::is_absolute(rel));
    assert(under_path(prefix, path).subrange(0, prefix.len() as int) =~= prefix);
}

proof fn left_trim_keeps_names(s: Seq<char>)
    ensures
        names::names_of(trim_left(s)) == names::names_of(s),
    decreases s.len(),
{
    let none = Seq::<char>::empty();
    names::empty_path_has_no_names();
    if s.len() > 0 && s[0] == '/' {
        left_trim_keeps_names(s.skip(1));
        assert(s =~= none.push('/') + s.skip(1));
        names::names_across_a_separator(none, s.skip(1));
        assert(names::names_of(s) =~= names::names_of(s.skip(1)));
    } else if s.len() == 1 && s[0] == '.' {
        left_trim_keeps_names(s.skip(1));
        assert(s =~= seq!['.']);
        assert(s.skip(1) =~= none);
    } else if s.len() > 1 && s[0] == '.' && s[1] == '/' {
        left_trim_keeps_names(s.skip(1));
        let rest = s.skip(2);
        assert(s =~= seq!['.'].push('/') + rest);
        assert(s.skip(1) =~= none.push('/') + rest);
        names::names_across_a_separator(seq!['.'], rest);
        names::names_across_a_separator(none, rest);
    }
}

proof fn right_trim_keeps_names(s: Seq<char>)
    ensures
        names::names_of(trim_right(s)) == names::names_of(s),
    decreases s.len(),
{
    let none = Seq::<char>::empty();
    names::empty_path_has_no_names();
    if s.len() > 0 && s.last() == '/' {
        right_trim_keeps_names(s.drop_last());
        assert(s =~= s.drop_last().push('/') + none);
        names::names_across_a_separator(s.drop_last(), none);
        assert(names::names_of(s) =~= names::names_of(s.drop_last()));
    } else if s.len() == 1 && s.last() == '.' {
        right_trim_keeps_names(s.drop_last());
        assert(s =~= seq!['.']);
        assert(s.drop_last() =~= none);
    } else if s.len() > 1 && s.last() == '.' && s[s.len() - 2] == '/' {
        right_trim_keeps_names(s.drop_last());
        let dir = s.take(s.len() - 2);
        assert(s =~= dir.push('/') + seq!['.']);
        assert(s.drop_last() =~= dir.push('/') + none);
        names::names_across_a_separator(dir, seq!['.']);
        names::names_across_a_separator(dir, none);
    }
}

/// Below a prefix, the root among them, a path leads through the prefix's names
/// and then through its own.
pub proof fn names_under_the_prefix(prefix: Seq<char>, path: Seq<char>)
    ensures
        names::names_of(under_path(prefix, path)) == names::names_of(prefix) + names::names_of(
            path,
        ),
{
    if is_root(prefix) {
        left_trim_keeps_names(prefix);
        names::empty_path_has_no_names();
        assert(trim_left(prefix) =~= Seq::empty());
        assert(names::names_of(prefix) + names::names_of(path) =~= names::names_of(path));
    } else {
        let rel = relative(path);
        if paths::is_absolute(path) {
            trimmed_is_relative(path);
            right_trim_keeps_start(trim_left(path));
            if rel.len() > 0 {
                assert(rel[0] == trim_left(path)[0]);
            }
            left_trim_keeps_names(path);
            right_trim_keeps_names(trim_left(path));
        }
        names::names_of_joined(prefix, rel);
    }
}

/// Every path that installing or uninstalling touches, below the prefix.
#[derive(Debug, Clone, PartialEq, Eq)]
pub struct Paths {
    pub daemon_bin: String,
    pub ctl_bin: String,
    pub tray_bin: String,
    pub app_bundle: String,
    pub bundled_tray: String,
    pub daemon_plist: String,
    pub vhidd_plist: String,
    pub vhidd_binary: String,
    pub bash_completion: String,
    pub zsh_completion: String,
    pub fish_completion: String,
    pub logs_dir: String,
    pub support_dir: String,
    pub socket: String,
}

pub const DAEMON_BIN: &'static str = "/usr/local/bin/kanatad";

pub const CTL_BIN: &'static str = "/usr/local/bin/kanatactl";

pub const DAEMON_PLIST_PATH: &'static str =
    "/Library/LaunchDaemons/io.github.ibimal.kanatabar.daemon.plist";

pub const VHIDD_PLIST_PATH: &'static str =
    "/Library/LaunchDaemons/io.github.ibimal.kanatabar.vhidd.plist";

pub const BASH_COMPLETION_PATH: &'static str = "/usr/local/etc/bash_completion.d/kanatactl";

pub const ZSH_COMPLETION_PATH: &'static str = "/usr/local/share/zsh/site-functions/_kanatactl";

pub const FISH_COMPLETION_PATH: &'static str =
    "/usr/local/share/fish/vendor_completions.d/kanatactl.fish";

pub const LOGS_DIR: &'static str = "/Library/Logs/KanataBar";

pub const SUPPORT_DIR: &'static str = "/Library/Application Support/KanataBar";

pub const SOCKET: &'static str = "/var/run/kanatabar.sock";

impl Paths {
    /// The paths are those below the prefix.
    pub open spec fn below(self, prefix: Seq<char>) -> bool {
        &&& self.daemon_bin@ == under_path(prefix, DAEMON_BIN@)
        &&& self.ctl_bin@ == under_path(prefix, CTL_BIN@)
        &&& self.tray_bin@ == under_path(prefix, UNBUNDLED_TRAY@)
        &&& self.app_bundle@ == under_path(prefix, APP_BUNDLE@)
        &&& self.bundled_tray@ == paths::joined(
            under_path(prefix, APP_BUNDLE@),
            "Contents/MacOS/kanatabar-tray"@,
        )
        &&& self.daemon_plist@ == under_path(prefix, DAEMON_PLIST_PATH@)
        &&& self.vhidd_plist@ == under_path(prefix, VHIDD_PLIST_PATH@)
        &&& self.vhidd_binary@ == under_path(prefix, vhidd::VHIDD_BINARY@)
        &&& self.bash_completion@ == under_path(prefix, BASH_COMPLETION_PATH@)
        &&& self.zsh_completion@ == under_path(prefix, ZSH_COMPLETION_PATH@)
        &&& self.fish_completion@ == under_path(prefix, FISH_COMPLETION_PATH@)
        &&& self.logs_dir@ == under_path(prefix, LOGS_DIR@)
        &&& self.support_dir@ == under_path(prefix, SUPPORT_DIR@)
        &&& self.socket@ == under_path(prefix, SOCKET@)
    }

    /// Every path below the prefix.
    pub fn new(prefix: &str) -> (r: Self)
        ensures
            r.below(prefix@),
    {
        let app_bundle = under(prefix, APP_BUNDLE);
        let bundled_tray = paths::join(app_bundle.as_str(), "Contents/MacOS/kanatabar-tray");
        Paths {
            daemon_bin: under(prefix, DAEMON_BIN),
            ctl_bin: under(prefix, CTL_BIN),
            tray_bin: under(prefix, UNBUNDLED_TRAY),
            app_bundle,
            bundled_tray,
            daemon_plist: under(prefix, DAEMON_PLIST_PATH),
            vhidd_plist: under(prefix, VHIDD_PLIST_PATH),
            vhidd_binary: under(prefix, vhidd::VHIDD_BINARY),
            bash_completion: under(prefix, BASH_COMPLETION_PATH),
            zsh_completion: under(prefix, ZSH_COMPLETION_PATH),
            fish_completion: under(prefix, FISH_COMPLETION_PATH),
            logs_dir: under(prefix, LOGS_DIR),
            support_dir: under(prefix, SUPPORT_DIR),
            socket: under(prefix, SOCKET),
        }
    }
}

/// A job's plist has the job's label for its name.
pub proof fn plists_are_named_by_their_labels()
    ensures
        DAEMON_PLIST_PATH@ == "/Library/LaunchDaemons/"@ + DAEMON_LABEL@ + ".plist"@,
        VHIDD_PLIST_PATH@ == "/Library/LaunchDaemons/"@ + VHIDD_LABEL@ + ".plist"@,
{
    reveal_strlit("/Library/LaunchDaemons/io.github.ibimal.kanatabar.daemon.plist");
    reveal_strlit("/Library/LaunchDaemons/io.github.ibimal.kanatabar.vhidd.plist");
    reveal_strlit("/Library/LaunchDaemons/");
    reveal_strlit("io.github.ibimal.kanatabar.daemon");
    reveal_strlit("io.github.ibimal.kanatabar.vhidd");
    reveal_strlit(".plist");
    assert(DAEMON_PLIST_PATH@ =~= "/Library/LaunchDaemons/"@ + DAEMON_LABEL@ + ".plist"@);
    assert(VHIDD_PLIST_PATH@ =~= "/Library/LaunchDaemons/"@ + VHIDD_LABEL@ + ".plist"@);
}

/// The agent plist of a home directory.
pub open spec fn agent_plist_of(home: Seq<char>) -> Seq<char> {
    paths::joined(paths::joined(home, "Library/LaunchAgents"@), AGENT_LABEL@ + ".plist"@)
}

/// The agent plist in a home directory.
pub fn agent_plist(home: &str) -> (r: String)
    ensures
        r@ == agent_plist_of(home@),
{
    let mut file = AGENT_LABEL.to_owned();
    file.append(".plist");
    paths::join(paths::join(home, "Library/LaunchAgents").as_str(), file.as_str())
}

// ── launchd names ───────────────────────────────────────────────────────────

/// The launchd target of a system job.
pub open spec fn system_target(label: Seq<char>) -> Seq<char> {
    "system/"@ + label
}

/// The launchd domain of a user's session.
pub open spec fn gui_domain(uid: u32) -> Seq<char> {
    "gui/"@ + number::decimal(uid as nat)
}

/// The launchd target of the agent in a user's session.
pub open spec fn agent_target_of(uid: u32) -> Seq<char> {
    gui_domain(uid) + "/"@ + AGENT_LABEL@
}

/// The launchd domain of a user's session.
pub fn user_domain(uid: u32) -> (r: String)
    ensures
        r@ == gui_domain(uid),
{
    let mut r = "gui/".to_owned();
    push_decimal(&mut r, uid as u64);
    r
}

/// The launchd target of the agent in a user's session.
pub fn agent_target(uid: u32) -> (r: String)
    ensures
        r@ == agent_target_of(uid),
{
    let mut r = user_domain(uid);
    r.append("/");
    r.append(AGENT_LABEL);
    r
}

/// The launchd target of a system job.
pub fn system_job(label: &str) -> (r: String)
    ensures
        r@ == system_target(label@),
{
    let mut r = "system/".to_owned();
    r.append(label);
    r
}

// ── Decisions ───────────────────────────────────────────────────────────────

/// What to say when a real install lacks root.
pub const NEEDS_ROOT: &'static str =
    "kanatactl install/uninstall must run as root — try again with sudo";

/// Refuse to touch the real system without root. A non-default `prefix` is a
/// test/dev invocation and skips this.
pub fn check_privilege(cfg: &InstallConfig, is_root_user: bool) -> (r: Result<(), &'static str>)
    ensures
        r is Err <==> is_root(cfg.prefix@) && !is_root_user,
        r matches Err(message) ==> message@ == NEEDS_ROOT@,
{
    if is_real(cfg.prefix.as_str()) && !is_root_user {
        Err(NEEDS_ROOT)
    } else {
        Ok(())
    }
}

/// What stands at a path, without following a symlink there.
#[derive(Debug, Clone, Copy, PartialEq, Eq, Structural)]
pub enum EntryKind {
    Missing,
    Symlink,
    Directory,
    Other,
}

/// How a binary gets to its place.
#[derive(Debug, Clone, Copy, PartialEq, Eq, Structural)]
pub struct BinarySteps {
    /// Unlink what stands there. Copying truncates in place, and truncating a
    /// *running* binary (upgrade over a live daemon) kills the process; unlinking
    /// leaves the running process on the old inode instead.
    pub unlink: bool,
    /// Copy the source.
    pub copy: bool,
    /// Hand it to root.
    pub chown_root: bool,
}

/// Decide how to install a binary. `same_file`: source and destination are one
/// file, as when a packaged `kanatactl` runs from `/usr/local/bin` itself; then
/// unlinking would delete the source, so only mode and owner are set.
pub fn binary_steps(same_file: bool, destination: EntryKind, prefix: &str) -> (r: BinarySteps)
    ensures
        r.copy == !same_file,
        r.unlink == (!same_file && destination != EntryKind::Missing),
        r.chown_root == is_root(prefix@),
{
    BinarySteps {
        unlink: !same_file && !matches!(destination, EntryKind::Missing),
        copy: !same_file,
        chown_root: is_real(prefix),
    }
}

/// How a file in the user's home gets written.
#[derive(Debug, Clone, Copy, PartialEq, Eq, Structural)]
pub struct UserFileSteps {
    /// Create the parent directory.
    pub create_parent: bool,
    /// Hand the created parent directory to the user.
    pub chown_parent: bool,
    /// Remove the old file, rather than truncating through it.
    pub remove_old: bool,
    /// Hand the file to the user.
    pub chown_file: bool,
}

/// Which of the two is a symlink.
#[derive(Debug, Clone, Copy, PartialEq, Eq, Structural)]
pub enum SymlinkAt {
    Parent,
    File,
}

/// Decide how to write a file into the *user's* home as root (the agent plist):
/// the file and any `LaunchAgents` directory we create end up owned by the user:
/// launchd expects user-owned agent plists, and a root-owned
/// `~/Library/LaunchAgents` would block the user from ever adding their own
/// agents. Because the parent directory is user-controlled, refuse symlinks in
/// place of the directory or file and replace rather than truncate-through.
pub fn user_file_steps(
    parent: EntryKind,
    file: EntryKind,
    prefix: &str,
) -> (r: Result<UserFileSteps, SymlinkAt>)
    ensures
        match r {
            Ok(steps) => {
                &&& parent != EntryKind::Symlink
                &&& file != EntryKind::Symlink
                &&& steps.create_parent == (parent == EntryKind::Missing)
                &&& steps.chown_parent == (parent == EntryKind::Missing && is_root(prefix@))
                &&& steps.remove_old == (file != EntryKind::Missing)
                &&& steps.chown_file == is_root(prefix@)
            },
            Err(SymlinkAt::Parent) => parent == EntryKind::Symlink,
            Err(SymlinkAt::File) => parent != EntryKind::Symlink && file == EntryKind::Symlink,
        },
{
    if matches!(parent, EntryKind::Symlink) {
        return Err(SymlinkAt::Parent);
    }
    if matches!(file, EntryKind::Symlink) {
        return Err(SymlinkAt::File);
    }
    let for_real = is_real(prefix);
    let create_parent = matches!(parent, EntryKind::Missing);
    Ok(
        UserFileSteps {
            create_parent,
            chown_parent: create_parent && for_real,
            remove_old: !matches!(file, EntryKind::Missing),
            chown_file: for_real,
        },
    )
}

/// What is said of a symlink that is not written through.
pub fn symlink_refusal(path: &str) -> (r: String)
    ensures
        r@ == path@ + " is a symlink; refusing to write through it"@,
{
    let mut r = path.to_owned();
    r.append(" is a symlink; refusing to write through it");
    r
}

/// How a path is removed.
#[derive(Debug, Clone, Copy, PartialEq, Eq, Structural)]
pub enum Removal {
    /// There is nothing there.
    Nothing,
    /// A directory, with all that is in it.
    Tree,
    /// Anything else, a dangling symlink too.
    File,
}

/// How what stands at a path is removed.
pub open spec fn removal_for(entry: EntryKind) -> Removal {
    match entry {
        EntryKind::Missing => Removal::Nothing,
        EntryKind::Directory => Removal::Tree,
        _ => Removal::File,
    }
}

/// Decide how to remove what stands at a path.
pub fn removal_of(entry: EntryKind) -> (r: Removal)
    ensures
        r == removal_for(entry),
{
    match entry {
        EntryKind::Missing => Removal::Nothing,
        EntryKind::Directory => Removal::Tree,
        EntryKind::Symlink | EntryKind::Other => Removal::File,
    }
}

/// The ASCII text stands in the bytes at `i`.
pub open spec fn bytes_at(bytes: Seq<u8>, ascii: Seq<char>, i: int) -> bool {
    &&& 0 <= i
    &&& i + ascii.len() <= bytes.len()
    &&& forall|k: int|
        0 <= k < ascii.len() ==> #[trigger] bytes[i + k] as u32 == ascii[k] as u32
}

/// The ASCII text stands somewhere in the bytes.
pub open spec fn held_in(bytes: Seq<u8>, ascii: Seq<char>) -> bool {
    exists|i: int| bytes_at(bytes, ascii, i)
}

fn bytes_hold(bytes: &[u8], ascii: &str) -> (r: bool)
    ensures
        r == held_in(bytes@, ascii@),
{
    let pattern = chars_of(ascii);
    let n: usize = pattern.len();
    let len: usize = bytes.len();
    if n > len {
        return false;
    }
    let last: usize = len - n;
    let mut i: usize = 0;
    loop
        invariant
            i <= last,
            last + n == len,
            len == bytes@.len(),
            n == pattern@.len(),
            pattern@ == ascii@,
            forall|j: int| 0 <= j < i ==> !bytes_at(bytes@, ascii@, j),
        decreases last - i,
    {
        let mut k: usize = 0;
        while k < n && bytes[i + k] as u32 == pattern[k] as u32
            invariant
                k <= n,
                i + n <= len,
                len == bytes@.len(),
                n == pattern@.len(),
                forall|m: int|
                    0 <= m < k ==> #[trigger] bytes@[i + m] as u32 == pattern@[m] as u32,
            ensures
                k <= n,
                forall|m: int|
                    0 <= m < k ==> #[trigger] bytes@[i + m] as u32 == pattern@[m] as u32,
                k < n ==> bytes@[i + k] as u32 != pattern@[k as int] as u32,
            decreases n - k,
        {
            k += 1;
        }
        if k == n {
            assert(bytes_at(bytes@, ascii@, i as int));
            return true;
        }
        assert(!bytes_at(bytes@, ascii@, i as int)) by {
            if bytes_at(bytes@, ascii@, i as int) {
                assert(bytes@[i + k] as u32 == ascii@[k as int] as u32);
            }
        }
        if i == last {
            return false;
        }
        i += 1;
    }
}

/// What uninstalling does with `/Applications/KanataBar.app`.
#[derive(Debug, Clone, Copy, PartialEq, Eq, Structural)]
pub enum BundleAction {
    /// No bundle (tarball install): nothing to do.
    Nothing,
    /// The bundle is a stranger's: leave it alone, and say so.
    LeaveAlone,
    /// The bundle is ours: remove it.
    Remove,
}

/// What is done with the app bundle whose `Info.plist` holds those bytes; `None`
/// where it cannot be read.
pub open spec fn bundle_decision(info_plist: Option<Seq<u8>>) -> BundleAction {
    match info_plist {
        None => BundleAction::Nothing,
        Some(bytes) => if held_in(bytes, BUNDLE_ID@) {
            BundleAction::Remove
        } else {
            BundleAction::LeaveAlone
        },
    }
}

/// Decide about the app bundle from its `Info.plist`: it is removed only after
/// confirming that it is ours (the file carries [`BUNDLE_ID`]): uninstall must
/// never delete a stranger's app that happens to sit at our path.
pub fn bundle_action(info_plist: Option<&[u8]>) -> (r: BundleAction)
    ensures
        r == bundle_decision(
            match info_plist {
                Some(bytes) => Some(bytes@),
                None => None::<Seq<u8>>,
            },
        ),
{
    match info_plist {
        None => BundleAction::Nothing,
        Some(bytes) => if bytes_hold(bytes, BUNDLE_ID) {
            BundleAction::Remove
        } else {
            BundleAction::LeaveAlone
        },
    }
}

/// The file by which a bundle tells what it is.
pub open spec fn info_plist(bundle: Seq<char>) -> Seq<char> {
    paths::joined(bundle, "Contents/Info.plist"@)
}

/// The file by which a bundle tells what it is.
pub fn info_plist_path(bundle: &str) -> (r: String)
    ensures
        r@ == info_plist(bundle@),
{
    paths::join(bundle, "Contents/Info.plist")
}

/// What is said of a bundle that is left alone.
pub fn bundle_left_alone(app_bundle: &str) -> (r: String)
    ensures
        r@ == app_bundle@ + " does not identify as "@ + BUNDLE_ID@ + "; leaving it alone"@,
{
    let mut r = app_bundle.to_owned();
    r.append(" does not identify as ");
    r.append(BUNDLE_ID);
    r.append("; leaving it alone");
    r
}

// ── Bootstrapping a job ─────────────────────────────────────────────────────

/// How often a bootstrap is tried.
pub const BOOTSTRAP_ATTEMPTS: u32 = 10;

/// The wait between two tries, in milliseconds.
pub const BOOTSTRAP_DELAY_MS: u64 = 500;

/// What follows a try to bootstrap a job.
#[derive(Debug, Clone, Copy, PartialEq, Eq, Structural)]
pub enum BootstrapNext {
    /// The job is loaded.
    Done,
    /// Wait, then try for the `attempt`-th time.
    Retry {
        attempt: u32,
        delay_ms: u64,
    },
    /// Give up.
    Failed,
}

/// What follows the `attempt`-th try (from 1 on). Every bootstrap follows a
/// best-effort `bootout` of the same label, and `bootout` is asynchronous: a
/// bootstrap issued while the previous instance is still draining fails, so it
/// is retried briefly.
pub fn after_bootstrap(attempt: u32, succeeded: bool) -> (r: BootstrapNext)
    ensures
        r == (if succeeded {
            BootstrapNext::Done
        } else if attempt < BOOTSTRAP_ATTEMPTS {
            BootstrapNext::Retry {
                attempt: (attempt + 1) as u32,
                delay_ms: BOOTSTRAP_DELAY_MS,
            }
        } else {
            BootstrapNext::Failed
        }),
{
    if succeeded {
        BootstrapNext::Done
    } else if attempt < BOOTSTRAP_ATTEMPTS {
        BootstrapNext::Retry { attempt: attempt + 1, delay_ms: BOOTSTRAP_DELAY_MS }
    } else {
        BootstrapNext::Failed
    }
}

/// What is said when a job cannot be bootstrapped.
pub fn bootstrap_failure(domain: &str, plist: &str) -> (r: String)
    ensures
        r@ == "launchctl bootstrap "@ + domain@ + " "@ + plist@ + " still failing after "@
            + number::decimal(BOOTSTRAP_ATTEMPTS as nat) + " attempts"@,
{
    let mut r = "launchctl bootstrap ".to_owned();
    r.append(domain);
    r.append(" ");
    r.append(plist);
    r.append(" still failing after ");
    push_decimal(&mut r, BOOTSTRAP_ATTEMPTS as u64);
    r.append(" attempts");
    r
}

/// What is said when a binary is missing next to the running `kanatactl`.
pub fn sibling_missing(name: &str, exe: &str) -> (r: String)
    ensures
        r@ == name@ + " not found next to "@ + exe@
            + " — build the workspace first (cargo build --workspace)"@,
{
    let mut r = name.to_owned();
    r.append(" not found next to ");
    r.append(exe);
    r.append(" — build the workspace first (cargo build --workspace)");
    r
}

} // verus!
