//! Stable [`DoctorCheck::name`](crate::ipc::DoctorCheck) values. These are part
//! of the wire contract: the daemon emits them, the CLI/wizard match on them.
//! Do not rename without bumping the protocol.

use vstd::prelude::*;

verus! {

/// The daemon is reachable and responding.
pub const DAEMON: &'static str = "daemon";

/// The kanata binary is present (and its version, when known).
pub const KANATA_BINARY: &'static str = "kanata binary";

/// The Karabiner-DriverKit-VirtualHIDDevice pkg is installed on disk (the
/// VirtualHIDDevice-Manager app is present), distinct from [`DRIVER`], which
/// additionally requires the extension to be `activated enabled`. The wizard's
/// *install* step verifies this while its *activate* step verifies [`DRIVER`],
/// so the wizard can advance from one to the other.
pub const DRIVER_PRESENT: &'static str = "driver present";

/// The Karabiner DriverKit extension is `activated enabled`.
pub const DRIVER: &'static str = "karabiner driver";

/// The installed driver version matches what the installed kanata supports
/// (report-only where unknown).
pub const DRIVER_VERSION: &'static str = "driver version";

/// The Karabiner VirtualHIDDevice daemon is running.
pub const VHID_DAEMON: &'static str = "vhid daemon";

/// Something supervises the VHID daemon across reboots: KanataBar's
/// LaunchDaemon, Karabiner-Elements, or a user plist.
pub const VHID_MANAGED: &'static str = "vhid daemon managed";

/// Input Monitoring permission (best-effort).
pub const INPUT_MONITORING: &'static str = "input monitoring";

/// The control socket exists with the expected permissions.
pub const CONTROL_SOCKET: &'static str = "control socket";

/// The active preset's `.kbd` passes `kanata --check`.
pub const ACTIVE_CONFIG: &'static str = "active config";

/// `config.toml` parsed (or is absent): a present-but-broken file is a failure,
/// so presets/defaults are never silently discarded.
pub const CONFIG_FILE: &'static str = "config file";

/// The supervisor is in a healthy (non-degraded) state.
pub const SUPERVISOR: &'static str = "supervisor";

} // verus!
