//! The supervisor's vocabulary: its states, why it may be degraded, and how a
//! kanata child can end.

use vstd::prelude::*;

use crate::text;

verus! {

/// Top-level supervisor state.
#[derive(Debug, Clone, Copy, PartialEq, Eq, Hash, Structural)]
pub enum SupervisorState {
    /// No kanata child; entered on init or user stop.
    Stopped,
    /// A spawn is in flight (start, reload, device/config change).
    Starting,
    /// Child spawned and healthy.
    Running,
    /// Waiting out an exponential-backoff timer after a crash or failed start.
    Backoff,
    /// Retry budget exhausted, driver missing, or config broken; requires user action.
    Degraded,
    /// User-requested pause; child stopped intentionally.
    Paused,
}

impl SupervisorState {
    /// The state's name, as printed for users.
    pub open spec fn name_text(self) -> Seq<char> {
        match self {
            Self::Stopped => "Stopped"@,
            Self::Starting => "Starting"@,
            Self::Running => "Running"@,
            Self::Backoff => "Backoff"@,
            Self::Degraded => "Degraded"@,
            Self::Paused => "Paused"@,
        }
    }

    /// The state's name, as printed for users.
    pub fn name(self) -> (r: &'static str)
        ensures
            r@ == self.name_text(),
    {
        match self {
            Self::Stopped => "Stopped",
            Self::Starting => "Starting",
            Self::Running => "Running",
            Self::Backoff => "Backoff",
            Self::Degraded => "Degraded",
            Self::Paused => "Paused",
        }
    }
}

/// Why the supervisor is in `Degraded` and what user action fixes it.
#[derive(Debug, Clone, Copy, PartialEq, Eq, Structural)]
pub enum DegradedReason {
    /// Too many consecutive crashes/failed starts; retry budget spent.
    RetryBudgetExhausted,
    /// Karabiner DriverKit extension is not `activated enabled`.
    DriverNotActivated,
    /// Karabiner VirtualHIDDevice daemon is not running.
    VhidDaemonDown,
    /// The active config failed `kanata --check`; a bad config can never
    /// take the keyboard down.
    ConfigBroken,
    /// The kanata binary is missing: a clear message, not a crash loop.
    KanataBinMissing,
    /// macOS denied kanata's device access. The grants attach to **kanatad**
    /// (the launchd daemon is the responsible process for its kanata child),
    /// BOTH Input Monitoring AND Accessibility are required, and the kanata
    /// binary itself needs no grants. Won't fix itself; retrying is futile, so
    /// no crash loop.
    InputMonitoringDenied,
    /// Another process holds exclusive access to the keyboard (a Karabiner-
    /// Elements grabber, or a second kanata).
    DeviceGrabConflict,
    /// kanata's TCP port is taken by another process; respawning cannot fix it.
    TcpPortConflict,
    /// kanata is alive but its DriverKit output backend never came up, so it
    /// released the input devices and keys pass through UNREMAPPED. kanata
    /// keeps retrying and recovers by itself if the backend returns, so the
    /// child is left running and the supervisor flips back to `Running` on the
    /// recovery line.
    OutputBackendUnavailable,
}

/// What to do about [`DegradedReason::RetryBudgetExhausted`].
pub const RETRY_BUDGET_EXHAUSTED_TEXT: &'static str =
    "kanata keeps crashing — restart it, or load the last-known-good config";

/// What to do about [`DegradedReason::DriverNotActivated`].
pub const DRIVER_NOT_ACTIVATED_TEXT: &'static str =
    "Karabiner driver not activated — run the Setup Wizard";

/// What to do about [`DegradedReason::VhidDaemonDown`].
pub const VHID_DAEMON_DOWN_TEXT: &'static str =
    "Karabiner VirtualHIDDevice daemon is not running — reinstall the Karabiner driver";

/// What to do about [`DegradedReason::ConfigBroken`].
pub const CONFIG_BROKEN_TEXT: &'static str =
    "active config failed validation — fix it or roll back";

/// What to do about [`DegradedReason::KanataBinMissing`].
pub const KANATA_BIN_MISSING_TEXT: &'static str =
    "kanata binary not found — install kanata or set kanata_bin";

/// What to do about [`DegradedReason::InputMonitoringDenied`].
pub const INPUT_MONITORING_DENIED_TEXT: &'static str =
    "macOS denied kanata input access — grant BOTH Input Monitoring AND Accessibility to /usr/local/bin/kanatad in System Settings (kanata's own entry is not the one macOS checks); after updating KanataBar, remove (−) and re-add (+) both entries. KanataBar restarts kanata automatically once both are granted";

/// What to do about [`DegradedReason::DeviceGrabConflict`].
pub const DEVICE_GRAB_CONFLICT_TEXT: &'static str =
    "another program holds the keyboard (Karabiner-Elements grabber or a second kanata?) — quit it, then Start";

/// What to do about [`DegradedReason::TcpPortConflict`].
pub const TCP_PORT_CONFLICT_TEXT: &'static str =
    "kanata's TCP port is taken (another kanata or kanata-tray?) — free the port or change tcp_port in config.toml, then Start";

/// What to do about [`DegradedReason::OutputBackendUnavailable`].
pub const OUTPUT_BACKEND_UNAVAILABLE_TEXT: &'static str =
    "kanata cannot reach its virtual-keyboard output — keys are NOT remapped. Likely a Karabiner driver version mismatch: install the driver pkg named in your kanata release notes (the newest pqrs release is not always compatible), then approve it and Restart";

impl DegradedReason {
    /// The actionable one-liner for a reason.
    pub open spec fn text(self) -> Seq<char> {
        match self {
            Self::RetryBudgetExhausted => RETRY_BUDGET_EXHAUSTED_TEXT@,
            Self::DriverNotActivated => DRIVER_NOT_ACTIVATED_TEXT@,
            Self::VhidDaemonDown => VHID_DAEMON_DOWN_TEXT@,
            Self::ConfigBroken => CONFIG_BROKEN_TEXT@,
            Self::KanataBinMissing => KANATA_BIN_MISSING_TEXT@,
            Self::InputMonitoringDenied => INPUT_MONITORING_DENIED_TEXT@,
            Self::DeviceGrabConflict => DEVICE_GRAB_CONFLICT_TEXT@,
            Self::TcpPortConflict => TCP_PORT_CONFLICT_TEXT@,
            Self::OutputBackendUnavailable => OUTPUT_BACKEND_UNAVAILABLE_TEXT@,
        }
    }

    /// A user-facing, actionable one-liner.
    pub fn describe(self) -> (r: &'static str)
        ensures
            r@ == self.text(),
    {
        match self {
            Self::RetryBudgetExhausted => RETRY_BUDGET_EXHAUSTED_TEXT,
            Self::DriverNotActivated => DRIVER_NOT_ACTIVATED_TEXT,
            Self::VhidDaemonDown => VHID_DAEMON_DOWN_TEXT,
            Self::ConfigBroken => CONFIG_BROKEN_TEXT,
            Self::KanataBinMissing => KANATA_BIN_MISSING_TEXT,
            Self::InputMonitoringDenied => INPUT_MONITORING_DENIED_TEXT,
            Self::DeviceGrabConflict => DEVICE_GRAB_CONFLICT_TEXT,
            Self::TcpPortConflict => TCP_PORT_CONFLICT_TEXT,
            Self::OutputBackendUnavailable => OUTPUT_BACKEND_UNAVAILABLE_TEXT,
        }
    }
}

/// Classification of a kanata child exit.
#[derive(Debug, Clone, Copy, PartialEq, Eq, Structural)]
pub enum ExitClass {
    /// We signaled the child (stop, restart, reload).
    Requested,
    /// The user force-exited kanata via the panic escape chord; treated as an
    /// intentional stop, never a crash-loop trigger.
    PanicEscape,
    /// Unexpected exit with the raw code or signal for diagnostics.
    Crash {
        /// Process exit code, if it exited normally.
        code: Option<i32>,
        /// Terminating signal number, if killed by a signal.
        signal: Option<i32>,
    },
}

/// Every reason reads as one line.
pub proof fn reasons_read_as_one_line(reason: DegradedReason)
    ensures
        forall|k: int| 0 <= k < reason.text().len() ==> #[trigger] reason.text()[k] != '\n',
{
    reveal_with_fuel(text::lacks, 31);
    match reason {
        DegradedReason::RetryBudgetExhausted => {
            reveal_strlit(
                "kanata keeps crashing — restart it, or load the last-known-good config",
            );
            assert(text::lacks(RETRY_BUDGET_EXHAUSTED_TEXT@, '\n', 30));
            assert(text::lacks(RETRY_BUDGET_EXHAUSTED_TEXT@, '\n', 60));
            text::lacks_all(RETRY_BUDGET_EXHAUSTED_TEXT@, '\n', 70);
        },
        DegradedReason::DriverNotActivated => {
            reveal_strlit(
                "Karabiner driver not activated — run the Setup Wizard",
            );
            assert(text::lacks(DRIVER_NOT_ACTIVATED_TEXT@, '\n', 30));
            text::lacks_all(DRIVER_NOT_ACTIVATED_TEXT@, '\n', 53);
        },
        DegradedReason::VhidDaemonDown => {
            reveal_strlit(
                "Karabiner VirtualHIDDevice daemon is not running — reinstall the Karabiner driver",
            );
            assert(text::lacks(VHID_DAEMON_DOWN_TEXT@, '\n', 30));
            assert(text::lacks(VHID_DAEMON_DOWN_TEXT@, '\n', 60));
            text::lacks_all(VHID_DAEMON_DOWN_TEXT@, '\n', 81);
        },
        DegradedReason::ConfigBroken => {
            reveal_strlit(
                "active config failed validation — fix it or roll back",
            );
            assert(text::lacks(CONFIG_BROKEN_TEXT@, '\n', 30));
            text::lacks_all(CONFIG_BROKEN_TEXT@, '\n', 53);
        },
        DegradedReason::KanataBinMissing => {
            reveal_strlit(
                "kanata binary not found — install kanata or set kanata_bin",
            );
            assert(text::lacks(KANATA_BIN_MISSING_TEXT@, '\n', 30));
            text::lacks_all(KANATA_BIN_MISSING_TEXT@, '\n', 58);
        },
        DegradedReason::InputMonitoringDenied => {
            reveal_strlit(
                "macOS denied kanata input access — grant BOTH Input Monitoring AND Accessibility to /usr/local/bin/kanatad in System Settings (kanata's own entry is not the one macOS checks); after updating KanataBar, remove (−) and re-add (+) both entries. KanataBar restarts kanata automatically once both are granted",
            );
            assert(text::lacks(INPUT_MONITORING_DENIED_TEXT@, '\n', 30));
            assert(text::lacks(INPUT_MONITORING_DENIED_TEXT@, '\n', 60));
            assert(text::lacks(INPUT_MONITORING_DENIED_TEXT@, '\n', 90));
            assert(text::lacks(INPUT_MONITORING_DENIED_TEXT@, '\n', 120));
            assert(text::lacks(INPUT_MONITORING_DENIED_TEXT@, '\n', 150));
            assert(text::lacks(INPUT_MONITORING_DENIED_TEXT@, '\n', 180));
            assert(text::lacks(INPUT_MONITORING_DENIED_TEXT@, '\n', 210));
            assert(text::lacks(INPUT_MONITORING_DENIED_TEXT@, '\n', 240));
            assert(text::lacks(INPUT_MONITORING_DENIED_TEXT@, '\n', 270));
            assert(text::lacks(INPUT_MONITORING_DENIED_TEXT@, '\n', 300));
            text::lacks_all(INPUT_MONITORING_DENIED_TEXT@, '\n', 303);
        },
        DegradedReason::DeviceGrabConflict => {
            reveal_strlit(
                "another program holds the keyboard (Karabiner-Elements grabber or a second kanata?) — quit it, then Start",
            );
            assert(text::lacks(DEVICE_GRAB_CONFLICT_TEXT@, '\n', 30));
            assert(text::lacks(DEVICE_GRAB_CONFLICT_TEXT@, '\n', 60));
            assert(text::lacks(DEVICE_GRAB_CONFLICT_TEXT@, '\n', 90));
            text::lacks_all(DEVICE_GRAB_CONFLICT_TEXT@, '\n', 105);
        },
        DegradedReason::TcpPortConflict => {
            reveal_strlit(
                "kanata's TCP port is taken (another kanata or kanata-tray?) — free the port or change tcp_port in config.toml, then Start",
            );
            assert(text::lacks(TCP_PORT_CONFLICT_TEXT@, '\n', 30));
            assert(text::lacks(TCP_PORT_CONFLICT_TEXT@, '\n', 60));
            assert(text::lacks(TCP_PORT_CONFLICT_TEXT@, '\n', 90));
            assert(text::lacks(TCP_PORT_CONFLICT_TEXT@, '\n', 120));
            text::lacks_all(TCP_PORT_CONFLICT_TEXT@, '\n', 121);
        },
        DegradedReason::OutputBackendUnavailable => {
            reveal_strlit(
                "kanata cannot reach its virtual-keyboard output — keys are NOT remapped. Likely a Karabiner driver version mismatch: install the driver pkg named in your kanata release notes (the newest pqrs release is not always compatible), then approve it and Restart",
            );
            assert(text::lacks(OUTPUT_BACKEND_UNAVAILABLE_TEXT@, '\n', 30));
            assert(text::lacks(OUTPUT_BACKEND_UNAVAILABLE_TEXT@, '\n', 60));
            assert(text::lacks(OUTPUT_BACKEND_UNAVAILABLE_TEXT@, '\n', 90));
            assert(text::lacks(OUTPUT_BACKEND_UNAVAILABLE_TEXT@, '\n', 120));
            assert(text::lacks(OUTPUT_BACKEND_UNAVAILABLE_TEXT@, '\n', 150));
            assert(text::lacks(OUTPUT_BACKEND_UNAVAILABLE_TEXT@, '\n', 180));
            assert(text::lacks(OUTPUT_BACKEND_UNAVAILABLE_TEXT@, '\n', 210));
            assert(text::lacks(OUTPUT_BACKEND_UNAVAILABLE_TEXT@, '\n', 240));
            text::lacks_all(OUTPUT_BACKEND_UNAVAILABLE_TEXT@, '\n', 254);
        },
    }
}

/// No two reasons read alike.
pub proof fn reasons_read_differently(a: DegradedReason, b: DegradedReason)
    requires
        a != b,
    ensures
        a.text() != b.text(),
{
    reveal_strlit(
        "kanata keeps crashing — restart it, or load the last-known-good config",
    );
    reveal_strlit(
        "Karabiner driver not activated — run the Setup Wizard",
    );
    reveal_strlit(
        "Karabiner VirtualHIDDevice daemon is not running — reinstall the Karabiner driver",
    );
    reveal_strlit(
        "active config failed validation — fix it or roll back",
    );
    reveal_strlit(
        "kanata binary not found — install kanata or set kanata_bin",
    );
    reveal_strlit(
        "macOS denied kanata input access — grant BOTH Input Monitoring AND Accessibility to /usr/local/bin/kanatad in System Settings (kanata's own entry is not the one macOS checks); after updating KanataBar, remove (−) and re-add (+) both entries. KanataBar restarts kanata automatically once both are granted",
    );
    reveal_strlit(
        "another program holds the keyboard (Karabiner-Elements grabber or a second kanata?) — quit it, then Start",
    );
    reveal_strlit(
        "kanata's TCP port is taken (another kanata or kanata-tray?) — free the port or change tcp_port in config.toml, then Start",
    );
    reveal_strlit(
        "kanata cannot reach its virtual-keyboard output — keys are NOT remapped. Likely a Karabiner driver version mismatch: install the driver pkg named in your kanata release notes (the newest pqrs release is not always compatible), then approve it and Restart",
    );
    assert(DRIVER_NOT_ACTIVATED_TEXT@[0] == 'K' && CONFIG_BROKEN_TEXT@[0] == 'a');
    assert(RETRY_BUDGET_EXHAUSTED_TEXT@.len() == 70);
    assert(DRIVER_NOT_ACTIVATED_TEXT@.len() == 53);
    assert(VHID_DAEMON_DOWN_TEXT@.len() == 81);
    assert(CONFIG_BROKEN_TEXT@.len() == 53);
    assert(KANATA_BIN_MISSING_TEXT@.len() == 58);
    assert(INPUT_MONITORING_DENIED_TEXT@.len() == 303);
    assert(DEVICE_GRAB_CONFLICT_TEXT@.len() == 105);
    assert(TCP_PORT_CONFLICT_TEXT@.len() == 121);
    assert(OUTPUT_BACKEND_UNAVAILABLE_TEXT@.len() == 254);
}

/// No two states have the same name.
pub proof fn states_are_named_differently(a: SupervisorState, b: SupervisorState)
    requires
        a != b,
    ensures
        a.name_text() != b.name_text(),
{
    reveal_strlit("Stopped");
    reveal_strlit("Starting");
    reveal_strlit("Running");
    reveal_strlit("Backoff");
    reveal_strlit("Degraded");
    reveal_strlit("Paused");
    assert("Stopped"@.len() == 7 && "Stopped"@[0] == 'S');
    assert("Running"@.len() == 7 && "Running"@[0] == 'R');
    assert("Backoff"@.len() == 7 && "Backoff"@[0] == 'B');
    assert("Starting"@.len() == 8 && "Starting"@[0] == 'S');
    assert("Degraded"@.len() == 8 && "Degraded"@[0] == 'D');
    assert("Paused"@.len() == 6);
}

/// Each reason's text begins with what is wrong.
pub proof fn reasons_say_what_is_wrong(reason: DegradedReason)
    ensures
        text::begins(
            reason.text(),
            match reason {
                DegradedReason::RetryBudgetExhausted => "kanata keeps crashing"@,
                DegradedReason::DriverNotActivated => "Karabiner driver not activated"@,
                DegradedReason::VhidDaemonDown => "Karabiner VirtualHIDDevice daemon is not running"@,
                DegradedReason::ConfigBroken => "active config failed validation"@,
                DegradedReason::KanataBinMissing => "kanata binary not found"@,
                DegradedReason::InputMonitoringDenied => "macOS denied kanata input access"@,
                DegradedReason::DeviceGrabConflict => "another program holds the keyboard"@,
                DegradedReason::TcpPortConflict => "kanata's TCP port is taken"@,
                DegradedReason::OutputBackendUnavailable => "kanata cannot reach its virtual-keyboard output"@,
            },
        ),
{
    reveal_with_fuel(text::agrees, 50);
    match reason {
        DegradedReason::RetryBudgetExhausted => {
            reveal_strlit(
                "kanata keeps crashing — restart it, or load the last-known-good config",
            );
            reveal_strlit("kanata keeps crashing");
            text::begins_where_it_agrees(RETRY_BUDGET_EXHAUSTED_TEXT@, "kanata keeps crashing"@);
        },
        DegradedReason::DriverNotActivated => {
            reveal_strlit(
                "Karabiner driver not activated — run the Setup Wizard",
            );
            reveal_strlit("Karabiner driver not activated");
            text::begins_where_it_agrees(DRIVER_NOT_ACTIVATED_TEXT@, "Karabiner driver not activated"@);
        },
        DegradedReason::VhidDaemonDown => {
            reveal_strlit(
                "Karabiner VirtualHIDDevice daemon is not running — reinstall the Karabiner driver",
            );
            reveal_strlit("Karabiner VirtualHIDDevice daemon is not running");
            text::begins_where_it_agrees(VHID_DAEMON_DOWN_TEXT@, "Karabiner VirtualHIDDevice daemon is not running"@);
        },
        DegradedReason::ConfigBroken => {
            reveal_strlit(
                "active config failed validation — fix it or roll back",
            );
            reveal_strlit("active config failed validation");
            text::begins_where_it_agrees(CONFIG_BROKEN_TEXT@, "active config failed validation"@);
        },
        DegradedReason::KanataBinMissing => {
            reveal_strlit(
                "kanata binary not found — install kanata or set kanata_bin",
            );
            reveal_strlit("kanata binary not found");
            text::begins_where_it_agrees(KANATA_BIN_MISSING_TEXT@, "kanata binary not found"@);
        },
        DegradedReason::InputMonitoringDenied => {
            reveal_strlit(
                "macOS denied kanata input access — grant BOTH Input Monitoring AND Accessibility to /usr/local/bin/kanatad in System Settings (kanata's own entry is not the one macOS checks); after updating KanataBar, remove (−) and re-add (+) both entries. KanataBar restarts kanata automatically once both are granted",
            );
            reveal_strlit("macOS denied kanata input access");
            text::begins_where_it_agrees(INPUT_MONITORING_DENIED_TEXT@, "macOS denied kanata input access"@);
        },
        DegradedReason::DeviceGrabConflict => {
            reveal_strlit(
                "another program holds the keyboard (Karabiner-Elements grabber or a second kanata?) — quit it, then Start",
            );
            reveal_strlit("another program holds the keyboard");
            text::begins_where_it_agrees(DEVICE_GRAB_CONFLICT_TEXT@, "another program holds the keyboard"@);
        },
        DegradedReason::TcpPortConflict => {
            reveal_strlit(
                "kanata's TCP port is taken (another kanata or kanata-tray?) — free the port or change tcp_port in config.toml, then Start",
            );
            reveal_strlit("kanata's TCP port is taken");
            text::begins_where_it_agrees(TCP_PORT_CONFLICT_TEXT@, "kanata's TCP port is taken"@);
        },
        DegradedReason::OutputBackendUnavailable => {
            reveal_strlit(
                "kanata cannot reach its virtual-keyboard output — keys are NOT remapped. Likely a Karabiner driver version mismatch: install the driver pkg named in your kanata release notes (the newest pqrs release is not always compatible), then approve it and Restart",
            );
            reveal_strlit("kanata cannot reach its virtual-keyboard output");
            text::begins_where_it_agrees(OUTPUT_BACKEND_UNAVAILABLE_TEXT@, "kanata cannot reach its virtual-keyboard output"@);
        },
    }
}

} // verus!
