//! `kanatactl`'s commands: the request each one sends, what it prints of the
//! reply, and the exit code it ends with.
//!
//! Exit codes: 0 ok · 1 operational error · 2 usage · 3 cannot connect ·
//! 4 degraded.

use vstd::prelude::*;

use crate::client::{self, frame_of, Answer, Frame};
use crate::doctor::{self, all_ok, checks};
use crate::install::{Component, InstallConfig};
use crate::ipc::{
    DeviceInfo, DoctorCheck, Event, PresetInfo, RequestPayload, Response, ResponsePayload, Status,
    StatusView,
};
use crate::kanata::kbd;
use crate::state::SupervisorState;
use crate::text::number::{self, push_decimal};
use crate::text::{self, pad};

verus! {

broadcast use vstd::string::group_string_axioms;

/// Everything went well.
pub const EXIT_OK: u8 = 0;

/// The daemon refused, or the exchange failed.
pub const EXIT_OPERATIONAL: u8 = 1;

/// The command line is wrong.
pub const EXIT_USAGE: u8 = 2;

/// The daemon cannot be reached.
pub const EXIT_CANNOT_CONNECT: u8 = 3;

/// The daemon is degraded.
pub const EXIT_DEGRADED: u8 = 4;

// ── Commands that are one request ───────────────────────────────────────────

/// A command that sends one request and waits for its acknowledgement. Paths are
/// absolute: the daemon resolves them in *its* working directory.
#[derive(Debug, Clone, PartialEq, Eq)]
pub enum Command {
    Start,
    Stop,
    Restart,
    Pause,
    Resume,
    Autostart {
        on: bool,
    },
    PresetSwitch {
        name: String,
    },
    PresetAdd {
        name: String,
        config: String,
        autostart: bool,
    },
    PresetRemove {
        name: String,
    },
    ConfigValidate {
        path: String,
    },
    ConfigApply {
        path: String,
    },
    ConfigReload,
}

impl Command {
    /// The request that the command sends.
    pub open spec fn request(self) -> RequestPayload {
        match self {
            Command::Start => RequestPayload::Start,
            Command::Stop => RequestPayload::Stop,
            Command::Restart => RequestPayload::Restart,
            Command::Pause => RequestPayload::Pause,
            Command::Resume => RequestPayload::Resume,
            Command::Autostart { on } => RequestPayload::SetAutostart { enabled: on },
            Command::PresetSwitch { name } => RequestPayload::SwitchPreset { name },
            Command::PresetAdd { name, config, autostart } => RequestPayload::AddPreset {
                name,
                config,
                autostart,
            },
            Command::PresetRemove { name } => RequestPayload::RemovePreset { name },
            Command::ConfigValidate { path } => RequestPayload::ValidateConfig { path },
            Command::ConfigApply { path } => RequestPayload::ApplyConfig { path },
            Command::ConfigReload => RequestPayload::ReloadConfig,
        }
    }

    /// What the command prints when it is acknowledged.
    pub open spec fn done_text(self) -> Seq<char> {
        match self {
            Command::Start => "started"@,
            Command::Stop => "stopped"@,
            Command::Restart => "restarting"@,
            Command::Pause => "paused"@,
            Command::Resume => "resuming"@,
            Command::Autostart { .. } => "autostart updated"@,
            Command::PresetSwitch { .. } => "switched"@,
            Command::PresetAdd { .. } => "preset added"@,
            Command::PresetRemove { .. } => "preset removed"@,
            Command::ConfigValidate { .. } => "config OK"@,
            Command::ConfigApply { .. } => "applied"@,
            Command::ConfigReload => "config.toml reloaded"@,
        }
    }

    /// The request that the command sends.
    pub fn into_request(self) -> (r: RequestPayload)
        ensures
            r == self.request(),
    {
        match self {
            Command::Start => RequestPayload::Start,
            Command::Stop => RequestPayload::Stop,
            Command::Restart => RequestPayload::Restart,
            Command::Pause => RequestPayload::Pause,
            Command::Resume => RequestPayload::Resume,
            Command::Autostart { on } => RequestPayload::SetAutostart { enabled: on },
            Command::PresetSwitch { name } => RequestPayload::SwitchPreset { name },
            Command::PresetAdd { name, config, autostart } => RequestPayload::AddPreset {
                name,
                config,
                autostart,
            },
            Command::PresetRemove { name } => RequestPayload::RemovePreset { name },
            Command::ConfigValidate { path } => RequestPayload::ValidateConfig { path },
            Command::ConfigApply { path } => RequestPayload::ApplyConfig { path },
            Command::ConfigReload => RequestPayload::ReloadConfig,
        }
    }

    /// What the command prints when it is acknowledged.
    pub fn done(&self) -> (r: &'static str)
        ensures
            r@ == self.done_text(),
    {
        match self {
            Command::Start => "started",
            Command::Stop => "stopped",
            Command::Restart => "restarting",
            Command::Pause => "paused",
            Command::Resume => "resuming",
            Command::Autostart { .. } => "autostart updated",
            Command::PresetSwitch { .. } => "switched",
            Command::PresetAdd { .. } => "preset added",
            Command::PresetRemove { .. } => "preset removed",
            Command::ConfigValidate { .. } => "config OK",
            Command::ConfigApply { .. } => "applied",
            Command::ConfigReload => "config.toml reloaded",
        }
    }
}

// ── How a command ends ──────────────────────────────────────────────────────

/// How a command ends.
#[derive(Debug, Clone, PartialEq, Eq)]
pub enum Outcome {
    /// Print the text and exit with the code.
    Print {
        text: String,
        code: u8,
    },
    /// Report the error.
    Fail {
        message: String,
    },
    /// Report a reply to something else.
    Unexpected(ResponsePayload),
}

impl Outcome {
    /// The exit code.
    pub fn code(&self) -> (r: u8)
        ensures
            r == (match *self {
                Outcome::Print { text: _, code } => code,
                _ => EXIT_OPERATIONAL,
            }),
    {
        match self {
            Outcome::Print { text: _, code } => *code,
            _ => EXIT_OPERATIONAL,
        }
    }
}

/// The outcome prints exactly this and exits with this code.
pub open spec fn prints(outcome: Outcome, text: Seq<char>, code: u8) -> bool {
    outcome matches Outcome::Print { text: t, code: c } && t@ == text && c == code
}

/// How a command ends that waits for an acknowledgement.
pub fn command_outcome(answer: Answer<()>, done: &str) -> (r: Outcome)
    ensures
        match answer {
            Answer::Granted(_) => prints(r, done@ + "\n"@, EXIT_OK),
            Answer::Rejected(message) => r == (Outcome::Fail { message }),
            Answer::Unexpected(payload) => r == Outcome::Unexpected(payload),
        },
{
    match answer {
        Answer::Granted(_) => {
            let mut text = done.to_owned();
            text.append("\n");
            Outcome::Print { text, code: EXIT_OK }
        },
        Answer::Rejected(message) => Outcome::Fail { message },
        Answer::Unexpected(payload) => Outcome::Unexpected(payload),
    }
}

// ── Status ──────────────────────────────────────────────────────────────────

/// A labelled line, where there is a value.
pub open spec fn line_if(label: Seq<char>, value: Option<Seq<char>>) -> Seq<char> {
    match value {
        Some(value) => label + value + "\n"@,
        None => Seq::empty(),
    }
}

/// What is shown as the preset: its name, or that nothing is remapped.
pub open spec fn shown_preset(status: StatusView) -> Option<Seq<char>> {
    if status.active_preset is Some {
        status.active_preset
    } else if status.passthrough {
        Some("(none — passthrough, remapping nothing)"@)
    } else {
        None
    }
}

/// The status, line by line.
pub open spec fn status_lines(status: StatusView) -> Seq<char> {
    "state:          "@ + status.state.name_text() + "\n"@ + line_if(
        "preset:         "@,
        shown_preset(status),
    ) + line_if("layer:          "@, status.active_layer) + "kanata pid:     "@ + (
    match status.kanata_pid {
        Some(pid) => number::decimal(pid as nat),
        None => "(not running)"@,
    }) + "\n"@ + line_if("last error:     "@, status.last_error) + "uptime:         "@
        + number::decimal(status.uptime_s as nat) + "s\n"@ + "daemon version: "@
        + status.daemon_version + "\n"@
}

/// The status, line by line.
pub fn status_text(status: &Status) -> (r: String)
    ensures
        r@ == status_lines(status.deep_view()),
{
    let ghost view = status.deep_view();
    let mut out = "state:          ".to_owned();
    out.append(status.state.name());
    out.append("\n");
    let ghost head = out@;
    if let Some(preset) = &status.active_preset {
        out.append("preset:         ");
        out.append(preset.as_str());
        out.append("\n");
    } else if status.passthrough {
        out.append("preset:         ");
        out.append("(none — passthrough, remapping nothing)");
        out.append("\n");
    }
    assert(out@ =~= head + line_if("preset:         "@, shown_preset(view)));
    let ghost head = out@;
    if let Some(layer) = &status.active_layer {
        out.append("layer:          ");
        out.append(layer.as_str());
        out.append("\n");
    }
    assert(out@ =~= head + line_if("layer:          "@, view.active_layer));
    out.append("kanata pid:     ");
    match status.kanata_pid {
        Some(pid) => push_decimal(&mut out, pid as u64),
        None => out.append("(not running)"),
    }
    out.append("\n");
    let ghost head = out@;
    if let Some(error) = &status.last_error {
        out.append("last error:     ");
        out.append(error.as_str());
        out.append("\n");
    }
    assert(out@ =~= head + line_if("last error:     "@, view.last_error));
    out.append("uptime:         ");
    push_decimal(&mut out, status.uptime_s);
    out.append("s\n");
    out.append("daemon version: ");
    out.append(status.daemon_version.as_str());
    out.append("\n");
    assert(out@ =~= status_lines(view));
    out
}

/// The exit code that a status stands for.
pub fn status_code(status: &Status) -> (r: u8)
    ensures
        r == (if status.state == SupervisorState::Degraded {
            EXIT_DEGRADED
        } else {
            EXIT_OK
        }),
{
    match status.state {
        SupervisorState::Degraded => EXIT_DEGRADED,
        _ => EXIT_OK,
    }
}

/// How `kanatactl status` ends; exit 4 when the daemon is `Degraded`.
pub fn status_outcome(answer: Answer<Status>) -> (r: Outcome)
    ensures
        match answer {
            Answer::Granted(status) => prints(
                r,
                status_lines(status.deep_view()),
                if status.state == SupervisorState::Degraded {
                    EXIT_DEGRADED
                } else {
                    EXIT_OK
                },
            ),
            Answer::Rejected(message) => r == (Outcome::Fail { message }),
            Answer::Unexpected(payload) => r == Outcome::Unexpected(payload),
        },
{
    match answer {
        Answer::Granted(status) => Outcome::Print {
            text: status_text(&status),
            code: status_code(&status),
        },
        Answer::Rejected(message) => Outcome::Fail { message },
        Answer::Unexpected(payload) => Outcome::Unexpected(payload),
    }
}

// ── Presets ─────────────────────────────────────────────────────────────────

/// The width of the name column.
pub const NAME_WIDTH: usize = 16;

/// One line of the preset list: a star on the active one, the name, the path,
/// and whether it autostarts.
pub open spec fn preset_line(preset: PresetInfo) -> Seq<char> {
    (if preset.active {
        "*"@
    } else {
        " "@
    }) + " "@ + text::padded(preset.name@, NAME_WIDTH as nat) + " "@ + preset.config@ + (
    if preset.autostart {
        "  [autostart]"@
    } else {
        Seq::empty()
    }) + "\n"@
}

/// The preset list, line by line.
pub open spec fn preset_lines(presets: Seq<PresetInfo>) -> Seq<char>
    decreases presets.len(),
{
    if presets.len() == 0 {
        Seq::empty()
    } else {
        preset_lines(presets.drop_last()) + preset_line(presets.last())
    }
}

/// What is said when no preset is configured.
pub const NO_PRESETS: &'static str =
    "No presets configured. KanataBar is passing keys through.\n";

/// What is said when there is no kanata config to start from either.
pub const ADD_A_PRESET: &'static str =
    "Add a preset to start remapping:\n  kanatactl preset add <name> <path/to.kbd> [--autostart]\n";

/// What is said before the configs that were found.
pub const FOUND_CONFIGS: &'static str =
    "Found a kanata config — add it as a preset to start remapping:\n";

/// The name suggested for a config file: its stem, but `main` for a file
/// literally named `config.kbd`, which would make a poor preset name.
pub open spec fn suggested_name(file: Seq<char>) -> Seq<char> {
    if kbd::stem_of(file) == "config"@ {
        "main"@
    } else {
        kbd::stem_of(file)
    }
}

/// The commands that would add the files as presets.
pub open spec fn add_commands(dir: Seq<char>, files: Seq<Seq<char>>) -> Seq<char>
    decreases files.len(),
{
    if files.len() == 0 {
        Seq::empty()
    } else {
        add_commands(dir, files.drop_last()) + "  kanatactl preset add "@ + suggested_name(
            files.last(),
        ) + " "@ + crate::paths::joined(dir, files.last()) + "\n"@
    }
}

/// What is said about the `.kbd` files that a user already has.
pub open spec fn suggestions(dir: Seq<char>, files: Seq<Seq<char>>) -> Seq<char> {
    if files.len() == 0 {
        ADD_A_PRESET@
    } else {
        FOUND_CONFIGS@ + add_commands(dir, files)
    }
}

/// When no presets are configured, name the user's existing `.kbd` files in
/// `dir`, so a kanata user who already has a config learns how to turn it into a
/// preset instead of starting blank.
pub fn suggestion_text(dir: &str, files: &Vec<String>) -> (r: String)
    ensures
        r@ == suggestions(dir@, files.deep_view()),
{
    let ghost all = files.deep_view();
    assert(all.len() == files@.len());
    if files.len() == 0 {
        return ADD_A_PRESET.to_owned();
    }
    let mut out = FOUND_CONFIGS.to_owned();
    let mut i: usize = 0;
    while i < files.len()
        invariant
            i <= files@.len(),
            all == files.deep_view(),
            out@ == FOUND_CONFIGS@ + add_commands(dir@, all.take(i as int)),
        decreases files@.len() - i,
    {
        let ghost before = out@;
        assert(all.take(i + 1).drop_last() =~= all.take(i as int));
        assert(all.take(i + 1).last() == files@[i as int]@);
        let file = files[i].as_str();
        let stem = kbd::stem(file);
        out.append("  kanatactl preset add ");
        if text::same(stem.as_str(), "config") {
            out.append("main");
        } else {
            out.append(stem.as_str());
        }
        out.append(" ");
        out.append(crate::paths::join(dir, file).as_str());
        out.append("\n");
        assert(out@ =~= FOUND_CONFIGS@ + add_commands(dir@, all.take(i + 1)));
        i += 1;
    }
    assert(all.take(i as int) =~= all);
    out
}

fn presets_text(presets: &Vec<PresetInfo>) -> (r: String)
    ensures
        r@ == preset_lines(presets@),
{
    let mut out = String::new();
    let mut i: usize = 0;
    while i < presets.len()
        invariant
            i <= presets@.len(),
            out@ == preset_lines(presets@.take(i as int)),
        decreases presets@.len() - i,
    {
        let ghost before = out@;
        assert(presets@.take(i + 1).drop_last() =~= presets@.take(i as int));
        let preset = &presets[i];
        out.append(
            if preset.active {
                "*"
            } else {
                " "
            },
        );
        out.append(" ");
        out.append(pad(preset.name.as_str(), NAME_WIDTH).as_str());
        out.append(" ");
        out.append(preset.config.as_str());
        if preset.autostart {
            out.append("  [autostart]");
        }
        out.append("\n");
        assert(out@ =~= before + preset_line(presets@[i as int]));
        i += 1;
    }
    assert(presets@.take(i as int) =~= presets@);
    out
}

/// How `kanatactl preset list` ends. `dir` and `files` are the user's kanata
/// config directory and the `.kbd` files in it.
pub fn presets_outcome(
    answer: Answer<Vec<PresetInfo>>,
    dir: &str,
    files: &Vec<String>,
) -> (r: Outcome)
    ensures
        match answer {
            Answer::Granted(presets) => prints(
                r,
                if presets@.len() == 0 {
                    NO_PRESETS@ + suggestions(dir@, files.deep_view())
                } else {
                    preset_lines(presets@)
                },
                EXIT_OK,
            ),
            Answer::Rejected(message) => r == (Outcome::Fail { message }),
            Answer::Unexpected(payload) => r == Outcome::Unexpected(payload),
        },
{
    match answer {
        Answer::Granted(presets) => if presets.len() == 0 {
            let mut text = NO_PRESETS.to_owned();
            text.append(suggestion_text(dir, files).as_str());
            Outcome::Print { text, code: EXIT_OK }
        } else {
            Outcome::Print { text: presets_text(&presets), code: EXIT_OK }
        },
        Answer::Rejected(message) => Outcome::Fail { message },
        Answer::Unexpected(payload) => Outcome::Unexpected(payload),
    }
}

// ── Devices ─────────────────────────────────────────────────────────────────

/// What is said when the daemon has recorded no device.
pub const NO_DEVICES: &'static str =
    "(no devices recorded — the monitor reports devices present at daemon start and hotplugs since)\n";

/// One line of the device list.
pub open spec fn device_line(device: DeviceInfo) -> Seq<char> {
    (if device.matched {
        "✔"@
    } else {
        " "@
    }) + " "@ + device.shown() + "\n"@
}

/// The device list, line by line.
pub open spec fn device_lines(devices: Seq<DeviceInfo>) -> Seq<char>
    decreases devices.len(),
{
    if devices.len() == 0 {
        Seq::empty()
    } else {
        device_lines(devices.drop_last()) + device_line(devices.last())
    }
}

fn devices_text(devices: &Vec<DeviceInfo>) -> (r: String)
    ensures
        r@ == device_lines(devices@),
{
    let mut out = String::new();
    let mut i: usize = 0;
    while i < devices.len()
        invariant
            i <= devices@.len(),
            out@ == device_lines(devices@.take(i as int)),
        decreases devices@.len() - i,
    {
        let ghost before = out@;
        assert(devices@.take(i + 1).drop_last() =~= devices@.take(i as int));
        out.append(
            if devices[i].matched {
                "✔"
            } else {
                " "
            },
        );
        out.append(" ");
        out.append(devices[i].display_name());
        out.append("\n");
        assert(out@ =~= before + device_line(devices@[i as int]));
        i += 1;
    }
    assert(devices@.take(i as int) =~= devices@);
    out
}

/// How `kanatactl devices` ends.
pub fn devices_outcome(answer: Answer<Vec<DeviceInfo>>) -> (r: Outcome)
    ensures
        match answer {
            Answer::Granted(devices) => prints(
                r,
                if devices@.len() == 0 {
                    NO_DEVICES@
                } else {
                    device_lines(devices@)
                },
                EXIT_OK,
            ),
            Answer::Rejected(message) => r == (Outcome::Fail { message }),
            Answer::Unexpected(payload) => r == Outcome::Unexpected(payload),
        },
{
    match answer {
        Answer::Granted(devices) => if devices.len() == 0 {
            Outcome::Print { text: NO_DEVICES.to_owned(), code: EXIT_OK }
        } else {
            Outcome::Print { text: devices_text(&devices), code: EXIT_OK }
        },
        Answer::Rejected(message) => Outcome::Fail { message },
        Answer::Unexpected(payload) => Outcome::Unexpected(payload),
    }
}

// ── What goes to standard error ─────────────────────────────────────────────

/// What is reported where the daemon cannot be reached.
pub fn cannot_connect(socket: &str, error: &str) -> (r: String)
    ensures
        r@ == "cannot connect to daemon at "@ + socket@ + ": "@ + error@,
{
    let mut r = "cannot connect to daemon at ".to_owned();
    r.append(socket);
    r.append(": ");
    r.append(error);
    r
}

/// What is reported where a command failed.
pub fn error_line(message: &str) -> (r: String)
    ensures
        r@ == "error: "@ + message@,
{
    let mut r = "error: ".to_owned();
    r.append(message);
    r
}

// ── Logs ────────────────────────────────────────────────────────────────────

/// What one frame of a log exchange means. `GetLogs` answers with log lines,
/// then an acknowledgement; after `FollowLogs` lines keep coming.
#[derive(Debug, Clone, PartialEq, Eq)]
pub enum LogStep {
    /// Print the line and read on.
    Print(String),
    /// Read on.
    Skip,
    /// The buffered lines are all there.
    Done,
    /// Report the error.
    Fail {
        message: String,
    },
    /// Report a reply to something else.
    Unexpected(ResponsePayload),
}

/// One frame after `GetLogs` was sent with id `awaiting`. Lines and what ends
/// them echo that id; an event, and a response that echoes another id or none,
/// is skipped.
pub fn fetch_step(response: Response, awaiting: u64) -> (r: LogStep)
    ensures
        r == (match client::frame_for(response, awaiting) {
            Frame::Reply(ResponsePayload::LogLine { line }) => LogStep::Print(line),
            Frame::Reply(ResponsePayload::Ack) => LogStep::Done,
            Frame::Reply(ResponsePayload::Error { kind: _, message }) => LogStep::Fail { message },
            Frame::Reply(other) => LogStep::Unexpected(other),
            _ => LogStep::Skip,
        }),
{
    match frame_of(response, awaiting) {
        Frame::Reply(ResponsePayload::LogLine { line }) => LogStep::Print(line),
        Frame::Reply(ResponsePayload::Ack) => LogStep::Done,
        Frame::Reply(ResponsePayload::Error { kind: _, message }) => LogStep::Fail { message },
        Frame::Reply(other) => LogStep::Unexpected(other),
        _ => LogStep::Skip,
    }
}

/// One frame after `FollowLogs` was sent with id `awaiting`. A line is printed
/// where it echoes that id or, pushed, carries none; an error is reported where
/// it echoes that id. Everything else is skipped.
pub fn follow_step(response: Response, awaiting: u64) -> (r: LogStep)
    ensures
        r == (match response.payload {
            ResponsePayload::LogLine { line } if response.id is None
                || response.id == Some(awaiting) => LogStep::Print(line),
            ResponsePayload::Error { kind: _, message } if response.id == Some(awaiting) =>
                LogStep::Fail { message },
            _ => LogStep::Skip,
        }),
{
    let pushed = response.id.is_none();
    match frame_of(response, awaiting) {
        Frame::Reply(ResponsePayload::LogLine { line }) => LogStep::Print(line),
        Frame::Reply(ResponsePayload::Error { kind: _, message }) => LogStep::Fail { message },
        Frame::Other(ResponsePayload::LogLine { line }) => if pushed {
            LogStep::Print(line)
        } else {
            LogStep::Skip
        },
        _ => LogStep::Skip,
    }
}

// ── Events ──────────────────────────────────────────────────────────────────

/// The line for a state transition; other events are printed as they are.
pub fn transition_text(event: &Event) -> (r: Option<String>)
    ensures
        r.deep_view() == (match *event {
            Event::StateChanged { from, to, reason } => Some(
                from.name_text() + " -> "@ + to.name_text() + (match reason {
                    Some(reason) => " ("@ + reason.text() + ")"@,
                    None => Seq::empty(),
                }),
            ),
            _ => None,
        }),
{
    match event {
        Event::StateChanged { from, to, reason } => {
            let mut line = from.name().to_owned();
            line.append(" -> ");
            line.append(to.name());
            let ghost head = line@;
            if let Some(reason) = reason {
                line.append(" (");
                line.append(reason.describe());
                line.append(")");
                assert(line@ =~= head + (" ("@ + reason.text() + ")"@));
            } else {
                assert(line@ =~= head + Seq::<char>::empty());
            }
            Some(line)
        },
        _ => None,
    }
}

// ── Doctor ──────────────────────────────────────────────────────────────────

/// The exit code that a report stands for: 0 when every check passes, else 1.
pub fn doctor_code(checks: &[DoctorCheck]) -> (r: u8)
    ensures
        r == (if doctor::passed(checks@) {
            EXIT_OK
        } else {
            EXIT_OPERATIONAL
        }),
{
    if all_ok(checks) {
        EXIT_OK
    } else {
        EXIT_OPERATIONAL
    }
}

/// How `kanatactl doctor` ends.
pub fn doctor_outcome(answer: Answer<Vec<DoctorCheck>>) -> (r: Outcome)
    ensures
        match answer {
            Answer::Granted(checks) => prints(
                r,
                doctor::report(checks@),
                if doctor::passed(checks@) {
                    EXIT_OK
                } else {
                    EXIT_OPERATIONAL
                },
            ),
            Answer::Rejected(message) => r == (Outcome::Fail { message }),
            Answer::Unexpected(payload) => r == Outcome::Unexpected(payload),
        },
{
    match answer {
        Answer::Granted(checks) => Outcome::Print {
            text: doctor::format_report(checks.as_slice()),
            code: doctor_code(checks.as_slice()),
        },
        Answer::Rejected(message) => Outcome::Fail { message },
        Answer::Unexpected(payload) => Outcome::Unexpected(payload),
    }
}

/// The hint when the daemon cannot be reached.
pub const OFFLINE_HINT: &'static str =
    "is kanatad installed and running? try `sudo kanatactl install`";

/// The report shown when the daemon can't be reached: the "daemon reachable"
/// check itself fails, so `doctor` is useful before install too.
pub fn doctor_offline_report(socket: &str) -> (r: Vec<DoctorCheck>)
    ensures
        r@.len() == 1,
        r@[0].name@ == checks::DAEMON@,
        !r@[0].ok,
        r@[0].detail@ == "cannot connect to "@ + socket@,
        r@[0].fix_hint.deep_view() == Some(OFFLINE_HINT@),
{
    let mut detail = "cannot connect to ".to_owned();
    detail.append(socket);
    vec![
        DoctorCheck {
            name: checks::DAEMON.to_owned(),
            ok: false,
            detail,
            fix_hint: Some(OFFLINE_HINT.to_owned()),
        },
    ]
}

// ── Install ─────────────────────────────────────────────────────────────────

/// The options of `install` and `uninstall`.
#[derive(Debug, Clone, PartialEq, Eq)]
pub struct InstallArgs {
    /// Only the root daemon (LaunchDaemon).
    pub daemon_only: bool,
    /// Only the per-user tray agent (LaunchAgent).
    pub agent_only: bool,
    /// Root prefix for every installed path.
    pub prefix: Option<String>,
    /// Skip `launchctl bootstrap`/`bootout`.
    pub skip_launchctl: bool,
}

/// What is said when both components are to be the only one.
pub const EXCLUSIVE_FLAGS: &'static str = "--daemon-only and --agent-only are mutually exclusive";

impl InstallArgs {
    /// The configuration that the options ask for.
    pub fn into_config(self) -> (r: Result<InstallConfig, &'static str>)
        ensures
            r is Err <==> self.daemon_only && self.agent_only,
            r matches Err(message) ==> message@ == EXCLUSIVE_FLAGS@,
            r matches Ok(config) ==> {
                &&& config.component == (if self.daemon_only {
                    Component::Daemon
                } else if self.agent_only {
                    Component::Agent
                } else {
                    Component::Both
                })
                &&& config.skip_launchctl == self.skip_launchctl
                &&& config.prefix@ == (match self.prefix {
                    Some(prefix) => prefix@,
                    None => "/"@,
                })
            },
    {
        let component = match (self.daemon_only, self.agent_only) {
            (true, true) => return Err(EXCLUSIVE_FLAGS),
            (true, false) => Component::Daemon,
            (false, true) => Component::Agent,
            (false, false) => Component::Both,
        };
        let mut config = InstallConfig::default();
        config.component = component;
        config.skip_launchctl = self.skip_launchctl;
        if let Some(prefix) = self.prefix {
            config.prefix = prefix;
        }
        Ok(config)
    }
}

/// Each command asks the daemon for what it is named, with just the arguments it
/// was given, and no two commands ask for the same.
pub proof fn commands_ask_for_what_they_are_named(command: Command)
    ensures
        command is Start <==> command.request() is Start,
        command is Stop <==> command.request() is Stop,
        command is Restart <==> command.request() is Restart,
        command is Pause <==> command.request() is Pause,
        command is Resume <==> command.request() is Resume,
        command is ConfigReload <==> command.request() is ReloadConfig,
        command matches Command::Autostart { on } ==> (command.request()
            matches RequestPayload::SetAutostart { enabled } && enabled == on),
        command matches Command::PresetSwitch { name } ==> (command.request()
            matches RequestPayload::SwitchPreset { name: n } && n == name),
        command matches Command::PresetAdd { name, config, autostart } ==> (command.request()
            matches RequestPayload::AddPreset { name: n, config: c, autostart: a } && n == name
            && c == config && a == autostart),
        command matches Command::PresetRemove { name } ==> (command.request()
            matches RequestPayload::RemovePreset { name: n } && n == name),
        command matches Command::ConfigValidate { path } ==> (command.request()
            matches RequestPayload::ValidateConfig { path: p } && p == path),
        command matches Command::ConfigApply { path } ==> (command.request()
            matches RequestPayload::ApplyConfig { path: p } && p == path),
{
}

/// What an acknowledged command prints tells it from every other command.
pub proof fn acknowledgements_differ(a: Command, b: Command)
    requires
        a.done_text() == b.done_text(),
    ensures
        a is Start <==> b is Start,
        a is Stop <==> b is Stop,
        a is Restart <==> b is Restart,
        a is Pause <==> b is Pause,
        a is Resume <==> b is Resume,
        a is Autostart <==> b is Autostart,
        a is PresetSwitch <==> b is PresetSwitch,
        a is PresetAdd <==> b is PresetAdd,
        a is PresetRemove <==> b is PresetRemove,
        a is ConfigValidate <==> b is ConfigValidate,
        a is ConfigApply <==> b is ConfigApply,
        a is ConfigReload <==> b is ConfigReload,
{
    reveal_strlit("started");
    reveal_strlit("stopped");
    reveal_strlit("restarting");
    reveal_strlit("paused");
    reveal_strlit("resuming");
    reveal_strlit("autostart updated");
    reveal_strlit("switched");
    reveal_strlit("preset added");
    reveal_strlit("preset removed");
    reveal_strlit("config OK");
    reveal_strlit("applied");
    reveal_strlit("config.toml reloaded");
    assert("started"@.len() == 7 && "started"@[2] == 'a' && "stopped"@.len() == 7);
    assert("stopped"@[2] == 'o' && "applied"@.len() == 7 && "applied"@[2] == 'p');
    assert("resuming"@.len() == 8 && "resuming"@[0] == 'r' && "switched"@.len() == 8);
    assert("switched"@[0] == 's' && "restarting"@.len() == 10 && "paused"@.len() == 6);
    assert("autostart updated"@.len() == 17 && "preset added"@.len() == 12);
    assert("preset removed"@.len() == 14 && "config OK"@.len() == 9);
    assert("config.toml reloaded"@.len() == 20);
}

proof fn found_between(before: Seq<char>, part: Seq<char>, after: Seq<char>)
    ensures
        text::occurs(before + part + after, part),
{
    let all = before + part + after;
    assert(all.subrange(before.len() as int, (before.len() + part.len()) as int) =~= part);
    assert(text::occurs_at(all, part, before.len() as int));
}

proof fn each_is_found(
    a: Seq<char>,
    b: Seq<char>,
    c: Seq<char>,
    d: Seq<char>,
    e: Seq<char>,
    f: Seq<char>,
    g: Seq<char>,
)
    ensures
        text::occurs(a + b + c + d + e + f + g, a),
        text::occurs(a + b + c + d + e + f + g, b),
        text::occurs(a + b + c + d + e + f + g, c),
        text::occurs(a + b + c + d + e + f + g, d),
        text::occurs(a + b + c + d + e + f + g, e),
        text::occurs(a + b + c + d + e + f + g, f),
        text::occurs(a + b + c + d + e + f + g, g),
{
    let none = Seq::<char>::empty();
    let all = a + b + c + d + e + f + g;
    assert(text::occurs(all, a)) by {
        assert(all =~= none + a + (b + c + d + e + f + g));
        found_between(none, a, b + c + d + e + f + g);
    }
    assert(text::occurs(all, b)) by {
        assert(all =~= a + b + (c + d + e + f + g));
        found_between(a, b, c + d + e + f + g);
    }
    assert(text::occurs(all, c)) by {
        assert(all =~= (a + b) + c + (d + e + f + g));
        found_between(a + b, c, d + e + f + g);
    }
    assert(text::occurs(all, d)) by {
        assert(all =~= (a + b + c) + d + (e + f + g));
        found_between(a + b + c, d, e + f + g);
    }
    assert(text::occurs(all, e)) by {
        assert(all =~= (a + b + c + d) + e + (f + g));
        found_between(a + b + c + d, e, f + g);
    }
    assert(text::occurs(all, f)) by {
        found_between(a + b + c + d + e, f, g);
    }
    assert(text::occurs(all, g)) by {
        assert(all =~= (a + b + c + d + e + f) + g + none);
        found_between(a + b + c + d + e + f, g, none);
    }
}

spec fn pid_line(status: StatusView) -> Seq<char> {
    "kanata pid:     "@ + (match status.kanata_pid {
        Some(pid) => number::decimal(pid as nat),
        None => "(not running)"@,
    }) + "\n"@
}

proof fn regroup(a: Seq<char>, b: Seq<char>, c: Seq<char>, d: Seq<char>)
    ensures
        a + b + c + d == a + (b + c + d),
{
    assert(a + b + c + d =~= a + (b + c + d));
}

proof fn status_in_parts(status: StatusView)
    ensures
        status_lines(status) == ("state:          "@ + status.state.name_text() + "\n"@) + line_if(
            "preset:         "@,
            shown_preset(status),
        ) + line_if("layer:          "@, status.active_layer) + pid_line(status) + line_if(
            "last error:     "@,
            status.last_error,
        ) + ("uptime:         "@ + number::decimal(status.uptime_s as nat) + "s\n"@) + (
        "daemon version: "@ + status.daemon_version + "\n"@),
{
    let top = ("state:          "@ + status.state.name_text() + "\n"@) + line_if(
        "preset:         "@,
        shown_preset(status),
    ) + line_if("layer:          "@, status.active_layer);
    let pid = match status.kanata_pid {
        Some(pid) => number::decimal(pid as nat),
        None => "(not running)"@,
    };
    regroup(top, "kanata pid:     "@, pid, "\n"@);
    let mid = top + pid_line(status) + line_if("last error:     "@, status.last_error);
    regroup(mid, "uptime:         "@, number::decimal(status.uptime_s as nat), "s\n"@);
    let low = mid + ("uptime:         "@ + number::decimal(status.uptime_s as nat) + "s\n"@);
    regroup(low, "daemon version: "@, status.daemon_version, "\n"@);
}

/// The status tells what the daemon reported, each thing on its own line: the
/// state, the process, the uptime and the version always, and the preset, the
/// layer and the last error where there are any.
pub proof fn status_tells_what_was_reported(status: StatusView)
    ensures
        text::occurs(
            status_lines(status),
            "state:          "@ + status.state.name_text() + "\n"@,
        ),
        status.kanata_pid matches Some(pid) ==> text::occurs(
            status_lines(status),
            "kanata pid:     "@ + number::decimal(pid as nat) + "\n"@,
        ),
        status.kanata_pid is None ==> text::occurs(
            status_lines(status),
            "kanata pid:     "@ + "(not running)"@ + "\n"@,
        ),
        text::occurs(
            status_lines(status),
            "uptime:         "@ + number::decimal(status.uptime_s as nat) + "s\n"@,
        ),
        text::occurs(
            status_lines(status),
            "daemon version: "@ + status.daemon_version + "\n"@,
        ),
        status.active_preset matches Some(name) ==> text::occurs(
            status_lines(status),
            "preset:         "@ + name + "\n"@,
        ),
        status.active_preset is None && status.passthrough ==> text::occurs(
            status_lines(status),
            "preset:         "@ + "(none — passthrough, remapping nothing)"@ + "\n"@,
        ),
        status.active_layer matches Some(layer) ==> text::occurs(
            status_lines(status),
            "layer:          "@ + layer + "\n"@,
        ),
        status.last_error matches Some(error) ==> text::occurs(
            status_lines(status),
            "last error:     "@ + error + "\n"@,
        ),
{
    let state = "state:          "@ + status.state.name_text() + "\n"@;
    let preset = line_if("preset:         "@, shown_preset(status));
    let layer = line_if("layer:          "@, status.active_layer);
    let pid = pid_line(status);
    let error = line_if("last error:     "@, status.last_error);
    let uptime = "uptime:         "@ + number::decimal(status.uptime_s as nat) + "s\n"@;
    let version = "daemon version: "@ + status.daemon_version + "\n"@;
    status_in_parts(status);
    each_is_found(state, preset, layer, pid, error, uptime, version);
}

/// The preset list has a line for every preset, with a star exactly on the active
/// ones, its path, and a mark exactly on those that autostart.
pub proof fn the_list_has_every_preset(presets: Seq<PresetInfo>, i: int)
    requires
        0 <= i < presets.len(),
    ensures
        text::occurs(preset_lines(presets), preset_line(presets[i])),
        preset_line(presets[i])[0] == '*' <==> presets[i].active,
        text::occurs(preset_line(presets[i]), presets[i].config@),
        presets[i].autostart ==> text::occurs(preset_line(presets[i]), "  [autostart]\n"@),
    decreases presets.len(),
{
    let none = Seq::<char>::empty();
    let p = presets[i];
    let before = presets.drop_last();
    if i < before.len() {
        the_list_has_every_preset(before, i);
        assert(before[i] == p);
        let head = preset_lines(before);
        let at = choose|at: int| text::occurs_at(head, preset_line(p), at);
        let all = head + preset_line(presets.last());
        assert(all.subrange(at, at + preset_line(p).len()) =~= head.subrange(
            at,
            at + preset_line(p).len(),
        ));
        assert(text::occurs_at(all, preset_line(p), at));
    } else {
        assert(preset_lines(presets) =~= preset_lines(before) + preset_line(p) + none);
        found_between(preset_lines(before), preset_line(p), none);
    }
    the_line_shows_the_preset(p);
}

proof fn the_line_shows_the_preset(p: PresetInfo)
    ensures
        preset_line(p)[0] == '*' <==> p.active,
        text::occurs(preset_line(p), p.config@),
        p.autostart ==> text::occurs(preset_line(p), "  [autostart]\n"@),
{
    let none = Seq::<char>::empty();
    reveal_strlit("*");
    reveal_strlit(" ");
    let star = if p.active {
        "*"@
    } else {
        " "@
    };
    let mark = if p.autostart {
        "  [autostart]"@
    } else {
        none
    };
    let head = star + " "@ + text::padded(p.name@, NAME_WIDTH as nat) + " "@;
    assert(head[0] == star[0]);
    assert(preset_line(p)[0] == head[0]);
    assert(preset_line(p) == head + p.config@ + mark + "\n"@);
    assert(text::occurs(preset_line(p), p.config@)) by {
        assert(head + p.config@ + mark + "\n"@ =~= head + p.config@ + (mark + "\n"@));
        found_between(head, p.config@, mark + "\n"@);
    }
    if p.autostart {
        let whole = "  [autostart]\n"@;
        assert(mark + "\n"@ =~= whole) by {
            reveal_strlit("  [autostart]");
            reveal_strlit("\n");
            reveal_strlit("  [autostart]\n");
        }
        assert(head + p.config@ + mark + "\n"@ =~= (head + p.config@) + (mark + "\n"@) + none);
        found_between(head + p.config@, whole, none);
    }
}

/// For every config that the user has, the suggestion holds the very command that
/// adds it: under its own name, but `main` for one that is just called `config`,
/// and by its path in the directory.
pub proof fn every_config_is_suggested(dir: Seq<char>, files: Seq<Seq<char>>, i: int)
    requires
        0 <= i < files.len(),
    ensures
        text::occurs(
            suggestions(dir, files),
            "  kanatactl preset add "@ + suggested_name(files[i]) + " "@ + crate::paths::joined(
                dir,
                files[i],
            ) + "\n"@,
        ),
        files[i] == "config.kbd"@ ==> suggested_name(files[i]) == "main"@,
        kbd::stem_of(files[i]) != "config"@ ==> suggested_name(files[i]) == kbd::stem_of(files[i]),
{
    let line = add_line(dir, files[i]);
    command_is_listed(dir, files, i);
    let tail = add_commands(dir, files);
    let at = choose|at: int| text::occurs_at(tail, line, at);
    let all = FOUND_CONFIGS@ + tail;
    let n = FOUND_CONFIGS@.len() as int;
    assert(all.subrange(n + at, n + at + line.len()) =~= tail.subrange(at, at + line.len()));
    assert(text::occurs_at(all, line, n + at));
    if files[i] == "config.kbd"@ {
        kbd::stem_drops_the_extension("config"@);
        reveal_strlit("config");
        reveal_strlit(".kbd");
        reveal_strlit("config.kbd");
        assert("config"@ + ".kbd"@ =~= "config.kbd"@);
    }
}

spec fn add_line(dir: Seq<char>, file: Seq<char>) -> Seq<char> {
    "  kanatactl preset add "@ + suggested_name(file) + " "@ + crate::paths::joined(dir, file)
        + "\n"@
}

proof fn command_is_listed(dir: Seq<char>, files: Seq<Seq<char>>, i: int)
    requires
        0 <= i < files.len(),
    ensures
        text::occurs(add_commands(dir, files), add_line(dir, files[i])),
    decreases files.len(),
{
    let before = files.drop_last();
    let line = add_line(dir, files[i]);
    let head = add_commands(dir, before);
    if i < before.len() {
        command_is_listed(dir, before, i);
        assert(before[i] == files[i]);
        let at = choose|at: int| text::occurs_at(head, line, at);
        let all = add_commands(dir, files);
        assert(all.subrange(at, at + line.len()) =~= head.subrange(at, at + line.len()));
        assert(text::occurs_at(all, line, at));
    } else {
        assert(add_commands(dir, files) =~= head + line + Seq::<char>::empty());
        found_between(head, line, Seq::empty());
    }
}

/// The exit codes are those that scripts rely on, and all different.
pub proof fn exit_codes_are_stable()
    ensures
        EXIT_OK == 0,
        EXIT_OPERATIONAL == 1,
        EXIT_USAGE == 2,
        EXIT_CANNOT_CONNECT == 3,
        EXIT_DEGRADED == 4,
{
}

} // verus!
