//! Desktop notifications: crash, entered `Degraded` (with fix hint), recovery.
//!
//! Two deliveries: pkg installs run the tray from `KanataBar.app`, where
//! notifications go through Notification Center under KanataBar's own name;
//! unbundled dev builds can't use that framework, so they fall back to
//! `osascript`. The *decision* (`notification_for`) and the script are here; the
//! delivery is the shell's.

use vstd::prelude::*;

use crate::ipc::Event;
use crate::state::SupervisorState;
use crate::text::number::{self, signed_text};

verus! {

broadcast use vstd::string::group_string_axioms;

// ── The osascript fallback ──────────────────────────────────────────────────

/// `osascript -e 'display notification …'`: needs no app bundle.
#[derive(Debug, Clone, Copy)]
pub struct OsascriptNotifier;

/// A text inside an AppleScript string literal: backslashes and double quotes
/// carry a backslash before them.
pub open spec fn escaped(s: Seq<char>) -> Seq<char>
    decreases s.len(),
{
    if s.len() == 0 {
        Seq::empty()
    } else if s.last() == '\\' || s.last() == '"' {
        escaped(s.drop_last()).push('\\').push(s.last())
    } else {
        escaped(s.drop_last()).push(s.last())
    }
}

/// Escape a text for an AppleScript string literal.
pub fn escape(s: &str) -> (r: String)
    ensures
        r@ == escaped(s@),
{
    let mut r = String::new();
    for c in it: s.chars()
        invariant
            it.seq() == s@,
            r@ == escaped(s@.take(it.index() as int)),
    {
        assert(s@.take(it.index() + 1).drop_last() =~= s@.take(it.index() as int));
        if c == '\\' || c == '"' {
            r.push('\\');
        }
        r.push(c);
    }
    assert(s@.take(s@.len() as int) =~= s@);
    r
}

/// What the body of an AppleScript string literal stands for: a backslash
/// makes the next character plain. `None` where the literal would end early, at
/// a bare double quote, or would not end, at a backslash before its closing
/// quote.
pub open spec fn literal_value(s: Seq<char>) -> Option<Seq<char>>
    decreases s.len(),
{
    if s.len() == 0 {
        Some(Seq::empty())
    } else if s[0] == '"' {
        None
    } else if s[0] == '\\' {
        if s.len() == 1 {
            None
        } else {
            match literal_value(s.skip(2)) {
                Some(rest) => Some(seq![s[1]] + rest),
                None => None,
            }
        }
    } else {
        match literal_value(s.skip(1)) {
            Some(rest) => Some(seq![s[0]] + rest),
            None => None,
        }
    }
}

/// Literals one after the other stand for their values one after the other.
proof fn literal_value_concat(a: Seq<char>, b: Seq<char>)
    requires
        literal_value(a) is Some,
        literal_value(b) is Some,
    ensures
        literal_value(a + b) == Some(literal_value(a)->0 + literal_value(b)->0),
    decreases a.len(),
{
    if a.len() == 0 {
        assert(a + b =~= b);
        assert(literal_value(a)->0 + literal_value(b)->0 =~= literal_value(b)->0);
    } else if a[0] == '\\' {
        literal_value_concat(a.skip(2), b);
        assert((a + b).skip(2) =~= a.skip(2) + b);
        assert((a + b)[1] == a[1]);
        let rest = literal_value(a.skip(2))->0;
        assert(seq![a[1]] + (rest + literal_value(b)->0) =~= (seq![a[1]] + rest) + literal_value(
            b,
        )->0);
    } else {
        literal_value_concat(a.skip(1), b);
        assert((a + b).skip(1) =~= a.skip(1) + b);
        let rest = literal_value(a.skip(1))->0;
        assert(seq![a[0]] + (rest + literal_value(b)->0) =~= (seq![a[0]] + rest) + literal_value(
            b,
        )->0);
    }
}

/// Escaping keeps the literal closed: whatever the text, its escaped form reads
/// back as exactly that text.
pub proof fn escape_keeps_the_literal_closed(s: Seq<char>)
    ensures
        literal_value(escaped(s)) == Some(s),
    decreases s.len(),
{
    reveal_with_fuel(literal_value, 3);
    if s.len() > 0 {
        let before = s.drop_last();
        let c = s.last();
        escape_keeps_the_literal_closed(before);
        let tail = if c == '\\' || c == '"' {
            seq!['\\', c]
        } else {
            seq![c]
        };
        assert(tail.skip(tail.len() as int) =~= Seq::<char>::empty());
        assert(literal_value(tail)->0 =~= seq![c]);
        assert(escaped(s) =~= escaped(before) + tail);
        literal_value_concat(escaped(before), tail);
        assert(before + seq![c] =~= s);
    }
}

impl OsascriptNotifier {
    /// The script that shows a notification.
    pub open spec fn script_text(title: Seq<char>, body: Seq<char>) -> Seq<char> {
        "display notification \""@ + escaped(body) + "\" with title \""@ + escaped(title) + "\""@
    }

    /// The script that shows a notification. It is handed to `osascript` as one
    /// argument, never through a shell; only the AppleScript string literals
    /// need escaping so that `body`/`title` can't break out of their quotes.
    pub fn script(&self, title: &str, body: &str) -> (r: String)
        ensures
            r@ == Self::script_text(title@, body@),
    {
        let mut r = "display notification \"".to_owned();
        r.append(escape(body).as_str());
        r.append("\" with title \"");
        r.append(escape(title).as_str());
        r.append("\"");
        r
    }
}

// ── Delivery from an app bundle ─────────────────────────────────────────────

/// Notification Center delivery: notifications carry KanataBar's own name and
/// icon, and clicking one focuses the app instead of Script Editor. Only
/// constructible when the process runs from an app bundle.
#[derive(Debug)]
pub struct BundledNotifier {
    bundle: String,
}

impl BundledNotifier {
    /// The bundle's identifier.
    pub closed spec fn bundle_text(self) -> Seq<char> {
        self.bundle@
    }

    /// `Some` when the process runs from the app bundle of that identifier (the
    /// pkg install layout). `None` for unbundled dev builds, whose callers fall
    /// back to [`OsascriptNotifier`].
    pub fn new(bundle: Option<String>) -> (r: Option<Self>)
        ensures
            match bundle {
                Some(id) => r matches Some(notifier) && notifier.bundle_text() == id@,
                None => r is None,
            },
    {
        match bundle {
            Some(bundle) => Some(BundledNotifier { bundle }),
            None => None,
        }
    }

    /// The identifier of the bundle that notifications are posted from.
    pub fn bundle(&self) -> (r: &str)
        ensures
            r@ == self.bundle_text(),
    {
        self.bundle.as_str()
    }
}

// ── The decision ────────────────────────────────────────────────────────────

/// How an exit is described.
pub open spec fn exit_text(code: Option<i32>, signal: Option<i32>) -> Seq<char> {
    match code {
        Some(code) => "exit code "@ + number::signed_decimal(code as int),
        None => match signal {
            Some(signal) => "signal "@ + number::signed_decimal(signal as int),
            None => "unknown reason"@,
        },
    }
}

/// The notification that an event warrants: title and body.
pub open spec fn announced(event: Event) -> Option<(Seq<char>, Seq<char>)> {
    match event {
        Event::Crash { code, signal } => Some(
            ("KanataBar"@, "kanata crashed ("@ + exit_text(code, signal) + ")"@),
        ),
        Event::StateChanged { from, to, reason } => if to == SupervisorState::Degraded {
            Some(
                (
                    "KanataBar — Degraded"@,
                    match reason {
                        Some(reason) => reason.text(),
                        None => "check kanatactl status"@,
                    },
                ),
            )
        } else if from == SupervisorState::Degraded && to == SupervisorState::Running {
            Some(("KanataBar"@, "Recovered — kanata is running again"@))
        } else {
            None
        },
        _ => None,
    }
}

/// Decide whether `event` warrants a notification, and its `(title, body)`.
///
/// "Recovery" is scoped to leaving `Degraded` specifically: a routine
/// crash → `Backoff` → `Running` cycle is normal operation and would be noisy
/// to announce every time.
pub fn notification_for(event: &Event) -> (r: Option<(String, String)>)
    ensures
        match r {
            Some((title, body)) => announced(*event) == Some((title@, body@)),
            None => announced(*event) is None,
        },
{
    match event {
        Event::Crash { code, signal } => {
            let mut body = "kanata crashed (".to_owned();
            body.append(describe_exit(*code, *signal).as_str());
            body.append(")");
            Some(("KanataBar".to_owned(), body))
        },
        Event::StateChanged { from, to, reason } => match (*from, *to) {
            (_, SupervisorState::Degraded) => {
                let body = match reason {
                    Some(reason) => reason.describe().to_owned(),
                    None => "check kanatactl status".to_owned(),
                };
                Some(("KanataBar — Degraded".to_owned(), body))
            },
            (SupervisorState::Degraded, SupervisorState::Running) => Some(
                ("KanataBar".to_owned(), "Recovered — kanata is running again".to_owned()),
            ),
            _ => None,
        },
        _ => None,
    }
}

fn describe_exit(code: Option<i32>, signal: Option<i32>) -> (r: String)
    ensures
        r@ == exit_text(code, signal),
{
    match code {
        Some(code) => {
            let mut r = "exit code ".to_owned();
            r.append(signed_text(code).as_str());
            r
        },
        None => match signal {
            Some(signal) => {
                let mut r = "signal ".to_owned();
                r.append(signed_text(signal).as_str());
                r
            },
            None => "unknown reason".to_owned(),
        },
    }
}

/// Every way into `Degraded` is announced, recovery only on leaving `Degraded`
/// for `Running`, and no other transition.
pub proof fn transitions_announced(
    from: SupervisorState,
    to: SupervisorState,
    reason: Option<crate::state::DegradedReason>,
)
    ensures
        announced(Event::StateChanged { from, to, reason }) is Some <==> (to
            == SupervisorState::Degraded || (from == SupervisorState::Degraded && to
            == SupervisorState::Running)),
{
}

/// What each announcement says. Going degraded is told with the text of the very
/// reason, a crash with the code or the signal that it had, a recovery as one;
/// and nothing else is announced.
pub proof fn announcements_say_what_happened(event: Event)
    ensures
        match event {
            Event::Crash { code: Some(code), signal: _ } => announced(event) == Some(
                (
                    "KanataBar"@,
                    "kanata crashed ("@ + ("exit code "@ + number::signed_decimal(code as int))
                        + ")"@,
                ),
            ),
            Event::Crash { code: None, signal: Some(signal) } => announced(event) == Some(
                (
                    "KanataBar"@,
                    "kanata crashed ("@ + ("signal "@ + number::signed_decimal(signal as int))
                        + ")"@,
                ),
            ),
            Event::Crash { code: None, signal: None } => announced(event) is Some,
            Event::StateChanged { from, to, reason } => {
                &&& to == SupervisorState::Degraded && reason is Some ==> announced(event) == Some(
                    ("KanataBar — Degraded"@, reason->0.text()),
                )
                &&& to == SupervisorState::Degraded && reason is None ==> announced(event) == Some(
                    ("KanataBar — Degraded"@, "check kanatactl status"@),
                )
                &&& from == SupervisorState::Degraded && to == SupervisorState::Running
                    ==> announced(event) == Some(
                    ("KanataBar"@, "Recovered — kanata is running again"@),
                )
            },
            _ => announced(event) is None,
        },
{
}

} // verus!
