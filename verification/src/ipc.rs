//! Control-IPC protocol types.
//!
//! The wire format is NDJSON: one JSON object per line. Requests carry an
//! optional correlation `id`; every response and event carries the protocol
//! version `v` and echoes the request `id` (`null` for unsolicited events). The
//! `type` tag and its variant fields are flattened next to `v`/`id`:
//!
//! ```json
//! {"v":1,"id":null,"type":"Status","state":"Running","kanata_pid":4123, ...}
//! ```
//!
//! The types here are what the two ends agree on; turning them into JSON and
//! back, and the NDJSON framing, is done where the bytes are read and written.

use vstd::prelude::*;

use crate::config::PresetList;
use crate::state::{DegradedReason, SupervisorState};
use crate::text::{self, trim};
use crate::PROTOCOL_VERSION;

verus! {

broadcast use vstd::string::group_string_axioms;

/// Maximum length of one NDJSON line; longer lines close the connection.
pub const MAX_LINE_BYTES: usize = 64 * 1024;

/// A client → daemon request frame: optional correlation id plus payload.
#[derive(Debug, Clone, PartialEq, Eq)]
pub struct Request {
    /// Correlation id echoed on the matching response; `None` is allowed.
    pub id: Option<u64>,
    /// The request itself.
    pub payload: RequestPayload,
}

impl Request {
    /// Build a request with the given id and payload.
    pub fn new(id: Option<u64>, payload: RequestPayload) -> (r: Self)
        ensures
            r.id == id,
            r.payload == payload,
    {
        Request { id, payload }
    }
}

/// The set of requests. `Hello` must be sent first on a connection.
#[derive(Debug, Clone, PartialEq, Eq)]
pub enum RequestPayload {
    /// Version negotiation; must be the first frame.
    Hello {
        /// Lowest protocol version the client speaks.
        min_v: u32,
        /// Highest protocol version the client speaks.
        max_v: u32,
    },
    /// Request a one-shot [`Status`].
    GetStatus,
    /// Stream [`Event`]s on this connection until it closes.
    Subscribe,
    /// Start kanata.
    Start,
    /// Stop kanata; the daemon keeps running.
    Stop,
    /// Restart kanata.
    Restart,
    /// Pause remapping.
    Pause,
    /// Resume from pause.
    Resume,
    /// Switch to a named preset.
    SwitchPreset {
        /// Preset name.
        name: String,
    },
    /// List configured presets.
    ListPresets,
    /// Validate a `.kbd` file without applying it.
    ValidateConfig {
        /// Path to the `.kbd` file.
        path: String,
    },
    /// Validate then apply a `.kbd` file.
    ApplyConfig {
        /// Path to the `.kbd` file.
        path: String,
    },
    /// Replace the supervisor's preset list.
    SetPresetList {
        /// The new preset set.
        presets: PresetList,
    },
    /// Add or update a single preset (`kanatactl preset add`), preserving the
    /// other presets and their advanced fields. Upsert semantics.
    AddPreset {
        /// Preset name.
        name: String,
        /// Path to the preset's `.kbd` file.
        config: String,
        /// Start this preset automatically at daemon boot.
        autostart: bool,
    },
    /// Remove a single preset by name (`kanatactl preset remove`).
    RemovePreset {
        /// Preset name.
        name: String,
    },
    /// Re-read `config.toml` from disk (`kanatactl config reload`) so hand
    /// edits take effect without restarting the daemon.
    ReloadConfig,
    /// Fetch the last `lines` buffered log lines.
    GetLogs {
        /// Number of lines to return.
        lines: u32,
    },
    /// Stream log lines as they are emitted.
    FollowLogs,
    /// List input devices the daemon can see.
    GetDevices,
    /// Enable or disable autostart of the active preset.
    SetAutostart {
        /// Desired autostart state.
        enabled: bool,
    },
    /// Run the full preflight checklist.
    Doctor,
}

/// A daemon → client response frame. Carries the protocol version and echoes
/// the request id.
#[derive(Debug, Clone, PartialEq, Eq)]
pub struct Response {
    /// Protocol version (every response/event carries `v`).
    pub v: u32,
    /// Echo of the request id; `None` for unsolicited events.
    pub id: Option<u64>,
    /// The response itself.
    pub payload: ResponsePayload,
}

impl Response {
    /// Successful version negotiation, tagged with the negotiated version.
    pub fn hello_ack(negotiated_v: u32, id: Option<u64>) -> (r: Self)
        ensures
            r == (Response { v: negotiated_v, id, payload: ResponsePayload::HelloAck }),
    {
        Response { v: negotiated_v, id, payload: ResponsePayload::HelloAck }
    }

    /// Generic acknowledgement of a command (current protocol version).
    pub fn ack(id: Option<u64>) -> (r: Self)
        ensures
            r == (Response { v: PROTOCOL_VERSION, id, payload: ResponsePayload::Ack }),
    {
        Response { v: PROTOCOL_VERSION, id, payload: ResponsePayload::Ack }
    }

    /// An error response with a stable [`ErrorKind`] and actionable message.
    pub fn error(id: Option<u64>, kind: ErrorKind, message: String) -> (r: Self)
        ensures
            r == (Response {
                v: PROTOCOL_VERSION,
                id,
                payload: ResponsePayload::Error { kind, message },
            }),
    {
        Response { v: PROTOCOL_VERSION, id, payload: ResponsePayload::Error { kind, message } }
    }

    /// A status response.
    pub fn status(id: Option<u64>, status: Status) -> (r: Self)
        ensures
            r == (Response { v: PROTOCOL_VERSION, id, payload: ResponsePayload::Status(status) }),
    {
        Response { v: PROTOCOL_VERSION, id, payload: ResponsePayload::Status(status) }
    }

    /// An unsolicited event (id is always `null`).
    pub fn event(event: Event) -> (r: Self)
        ensures
            r == (Response {
                v: PROTOCOL_VERSION,
                id: None,
                payload: ResponsePayload::Event(event),
            }),
    {
        Response { v: PROTOCOL_VERSION, id: None, payload: ResponsePayload::Event(event) }
    }
}

/// The set of responses and events.
#[derive(Debug, Clone, PartialEq, Eq)]
pub enum ResponsePayload {
    /// Version negotiation succeeded.
    HelloAck,
    /// A command was accepted.
    Ack,
    /// A request failed.
    Error {
        /// Stable, machine-usable category.
        kind: ErrorKind,
        /// Human-readable, actionable message.
        message: String,
    },
    /// Current daemon status.
    Status(Status),
    /// An asynchronous event (only after `Subscribe`).
    Event(Event),
    /// Result of `Doctor`.
    DoctorReport {
        /// One entry per preflight check.
        checks: Vec<DoctorCheck>,
    },
    /// One buffered or streamed log line.
    LogLine {
        /// The formatted log line (never keystrokes or `.kbd` contents).
        line: String,
    },
    /// Result of `ListPresets`.
    Presets {
        /// Known presets.
        presets: Vec<PresetInfo>,
    },
    /// Result of `GetDevices`.
    Devices {
        /// Visible input devices.
        devices: Vec<DeviceInfo>,
    },
}

/// Stable, machine-usable error categories.
#[derive(Debug, Clone, Copy, PartialEq, Eq, Structural)]
pub enum ErrorKind {
    /// Protocol version negotiation failed.
    Incompatible,
    /// Request failed validation (unknown type, bad fields, oversize, wrong order).
    InvalidRequest,
    /// A user-supplied path failed the path-safety checks.
    PathRejected,
    /// `kanata --check` rejected the config.
    ConfigInvalid,
    /// Karabiner DriverKit extension is not `activated enabled`.
    DriverNotActivated,
    /// Karabiner VirtualHIDDevice daemon is not running.
    VhidDaemonDown,
    /// Operation requires a stopped child, but one is running.
    AlreadyRunning,
    /// Operation requires a running child, but none is.
    NotRunning,
    /// Unexpected daemon-side failure.
    Internal,
}

impl ErrorKind {
    /// The category's name, as printed for users.
    pub open spec fn name_text(self) -> Seq<char> {
        match self {
            Self::Incompatible => "Incompatible"@,
            Self::InvalidRequest => "InvalidRequest"@,
            Self::PathRejected => "PathRejected"@,
            Self::ConfigInvalid => "ConfigInvalid"@,
            Self::DriverNotActivated => "DriverNotActivated"@,
            Self::VhidDaemonDown => "VhidDaemonDown"@,
            Self::AlreadyRunning => "AlreadyRunning"@,
            Self::NotRunning => "NotRunning"@,
            Self::Internal => "Internal"@,
        }
    }

    /// The category's name, as printed for users.
    pub fn name(self) -> (r: &'static str)
        ensures
            r@ == self.name_text(),
    {
        match self {
            Self::Incompatible => "Incompatible",
            Self::InvalidRequest => "InvalidRequest",
            Self::PathRejected => "PathRejected",
            Self::ConfigInvalid => "ConfigInvalid",
            Self::DriverNotActivated => "DriverNotActivated",
            Self::VhidDaemonDown => "VhidDaemonDown",
            Self::AlreadyRunning => "AlreadyRunning",
            Self::NotRunning => "NotRunning",
            Self::Internal => "Internal",
        }
    }
}

/// A privacy permission that macOS grants to the supervising daemon.
#[derive(Debug, Clone, Copy, PartialEq, Eq, Structural)]
pub enum PermissionKind {
    /// Reading input devices.
    InputMonitoring,
    /// Posting input events.
    Accessibility,
}

/// A point-in-time status snapshot.
#[derive(Debug, Clone, PartialEq, Eq)]
pub struct Status {
    /// Supervisor state.
    pub state: SupervisorState,
    /// Active preset name, when one is selected.
    pub active_preset: Option<String>,
    /// Active kanata layer, when known (via kanata TCP).
    pub active_layer: Option<String>,
    /// Live kanata child pid.
    pub kanata_pid: Option<u32>,
    /// Reported kanata version.
    pub kanata_version: Option<String>,
    /// Driver preflight result; `None` when not yet checked.
    pub driver_ok: Option<bool>,
    /// Last error message, e.g. why we are `Degraded`.
    pub last_error: Option<String>,
    /// Structured reason when `state` is `Degraded`: `last_error` is prose for
    /// humans; the wizard needs the enum to map a runtime degradation onto the
    /// setup step that fixes it. Absent on the wire unless degraded.
    pub degraded_reason: Option<DegradedReason>,
    /// True when kanata is running the built-in passthrough config (no user
    /// preset selected, remapping nothing). Lets the UI say "passthrough"
    /// instead of surfacing the internal `safe.kbd` path. Omitted from the wire
    /// when false.
    pub passthrough: bool,
    /// Daemon uptime in seconds.
    pub uptime_s: u64,
    /// Daemon version.
    pub daemon_version: String,
}

/// What a [`Status`] says.
#[verifier::ext_equal]
pub struct StatusView {
    pub state: SupervisorState,
    pub active_preset: Option<Seq<char>>,
    pub active_layer: Option<Seq<char>>,
    pub kanata_pid: Option<u32>,
    pub kanata_version: Option<Seq<char>>,
    pub driver_ok: Option<bool>,
    pub last_error: Option<Seq<char>>,
    pub degraded_reason: Option<DegradedReason>,
    pub passthrough: bool,
    pub uptime_s: u64,
    pub daemon_version: Seq<char>,
}

impl DeepView for Status {
    type V = StatusView;

    open spec fn deep_view(&self) -> StatusView {
        StatusView {
            state: self.state,
            active_preset: self.active_preset.deep_view(),
            active_layer: self.active_layer.deep_view(),
            kanata_pid: self.kanata_pid,
            kanata_version: self.kanata_version.deep_view(),
            driver_ok: self.driver_ok,
            last_error: self.last_error.deep_view(),
            degraded_reason: self.degraded_reason,
            passthrough: self.passthrough,
            uptime_s: self.uptime_s,
            daemon_version: self.daemon_version@,
        }
    }
}

/// One line of a [`ResponsePayload::DoctorReport`].
#[derive(Debug, Clone, PartialEq, Eq)]
pub struct DoctorCheck {
    /// Check name.
    pub name: String,
    /// Whether the check passed.
    pub ok: bool,
    /// Detail line.
    pub detail: String,
    /// Actionable fix hint when it failed.
    pub fix_hint: Option<String>,
}

impl DoctorCheck {
    /// A copy of the check.
    pub fn copied(&self) -> (r: Self)
        ensures
            r == *self,
    {
        DoctorCheck {
            name: self.name.clone(),
            ok: self.ok,
            detail: self.detail.clone(),
            fix_hint: match &self.fix_hint {
                Some(hint) => Some(hint.clone()),
                None => None,
            },
        }
    }
}

/// A preset as reported by `ListPresets`.
#[derive(Debug, Clone, PartialEq, Eq)]
pub struct PresetInfo {
    /// Preset name.
    pub name: String,
    /// Path to its `.kbd` file.
    pub config: String,
    /// Whether it autostarts.
    pub autostart: bool,
    /// Whether it is the active preset.
    pub active: bool,
}

/// What a [`PresetInfo`] says.
#[verifier::ext_equal]
pub struct PresetInfoView {
    pub name: Seq<char>,
    pub config: Seq<char>,
    pub autostart: bool,
    pub active: bool,
}

impl DeepView for PresetInfo {
    type V = PresetInfoView;

    open spec fn deep_view(&self) -> PresetInfoView {
        PresetInfoView {
            name: self.name@,
            config: self.config@,
            autostart: self.autostart,
            active: self.active,
        }
    }
}

/// An input device as reported by `GetDevices`.
#[derive(Debug, Clone, PartialEq, Eq)]
pub struct DeviceInfo {
    /// Device name (as kanata sees it).
    pub name: String,
    /// Whether kanata is currently matching/grabbing it.
    pub matched: bool,
}

impl DeviceInfo {
    /// What every device-list surface shows when the name is blank. Some real
    /// HID devices carry no product string: the wire `name` stays the raw
    /// truth; presentation goes through here so the CLI and the devices window
    /// can never drift apart.
    pub const UNNAMED: &'static str = "Unnamed device";

    /// The device reported no usable product string.
    pub open spec fn unnamed(self) -> bool {
        text::trimmed(self.name@).len() == 0
    }

    /// The text shown for the device.
    pub open spec fn shown(self) -> Seq<char> {
        if self.unnamed() {
            Self::UNNAMED@
        } else {
            self.name@
        }
    }

    /// True when the device reported no usable product string.
    pub fn is_unnamed(&self) -> (r: bool)
        ensures
            r == self.unnamed(),
    {
        trim(self.name.as_str()).as_str().unicode_len() == 0
    }

    /// The name to display: the device's own, or [`Self::UNNAMED`].
    pub fn display_name(&self) -> (r: &str)
        ensures
            r@ == self.shown(),
    {
        if self.is_unnamed() {
            Self::UNNAMED
        } else {
            self.name.as_str()
        }
    }
}

/// Asynchronous events pushed to subscribers.
///
/// Tagged with `event` on the wire so the discriminator does not collide with
/// the response envelope's `type` tag.
#[derive(Debug, Clone, PartialEq, Eq)]
pub enum Event {
    /// Supervisor state transition.
    StateChanged {
        /// Previous state.
        from: SupervisorState,
        /// New state.
        to: SupervisorState,
        /// Degraded reason, when `to == Degraded`.
        reason: Option<DegradedReason>,
    },
    /// kanata reported a new active layer.
    LayerChanged {
        /// New layer name.
        layer: String,
    },
    /// A keyboard was added or removed.
    DeviceChanged {
        /// True if added, false if removed.
        added: bool,
        /// Device name.
        name: String,
    },
    /// kanata crashed.
    Crash {
        /// Exit code, if any.
        code: Option<i32>,
        /// Terminating signal, if any.
        signal: Option<i32>,
    },
    /// A driver/VHID health problem was detected.
    DriverIssue {
        /// Which problem.
        kind: ErrorKind,
        /// Actionable message.
        message: String,
    },
    /// A new config was applied.
    ConfigApplied {
        /// Preset name, when applied by name.
        preset: Option<String>,
        /// Path that was applied.
        path: String,
    },
    /// The configured preset list changed (add/remove/reload/set). A signal to
    /// re-fetch presets: no payload, so it stays cheap and the client always
    /// reads the authoritative list.
    PresetsChanged,
}

/// The versions that a client offers: from `min_v` to `max_v`.
pub open spec fn offers(min_v: u32, max_v: u32, v: u32) -> bool {
    min_v <= v <= max_v
}

/// Negotiate a protocol version: the daemon speaks exactly
/// [`PROTOCOL_VERSION`], so it accepts the connection iff that version is in
/// the client's `[min_v, max_v]` range.
pub fn negotiate(min_v: u32, max_v: u32) -> (r: Option<u32>)
    ensures
        r == (if offers(min_v, max_v, PROTOCOL_VERSION) {
            Some(PROTOCOL_VERSION)
        } else {
            None
        }),
{
    if min_v <= PROTOCOL_VERSION && PROTOCOL_VERSION <= max_v {
        Some(PROTOCOL_VERSION)
    } else {
        None
    }
}

/// A version comes out of a negotiation exactly when both sides speak it, and the
/// daemon speaks version 1 alone.
pub proof fn only_a_shared_version_is_accepted(min_v: u32, max_v: u32)
    ensures
        offers(min_v, max_v, PROTOCOL_VERSION) <==> min_v <= 1 && 1 <= max_v,
        PROTOCOL_VERSION == 1,
{
}

/// A device goes by its own name, unless that is blank: it is called unnamed
/// exactly where no character of its name shows.
pub proof fn devices_go_by_their_names(device: DeviceInfo)
    ensures
        device.unnamed() <==> forall|k: int|
            0 <= k < device.name@.len() ==> text::is_white(#[trigger] device.name@[k]),
        !device.unnamed() ==> device.shown() == device.name@,
        device.unnamed() ==> device.shown() == "Unnamed device"@,
{
    let s = device.name@;
    let t = text::drop_lead(s, text::white());
    text::lead_is_longest(s, text::white());
    text::trail_is_longest(t, text::white());
    let n = text::lead(s, text::white());
    if n < s.len() {
        assert(t[0] == s[n as int]);
        assert(!text::white()(s[n as int]));
        assert(text::trail(t, text::white()) < t.len()) by {
            if text::trail(t, text::white()) >= t.len() {
                assert(text::white()(t[0]));
            }
        }
    } else {
        assert forall|k: int| 0 <= k < s.len() implies text::is_white(#[trigger] s[k]) by {
            assert(text::white()(s[k]));
        }
    }
}

} // verus!
