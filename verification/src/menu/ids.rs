//! Stable menu-item ids (also used to rebuild the menu without losing identity
//! across refreshes).

use vstd::prelude::*;

verus! {

/// Start kanata.
pub const START: &'static str = "start";

/// Stop kanata.
pub const STOP: &'static str = "stop";

/// Restart kanata.
pub const RESTART: &'static str = "restart";

/// Pause remapping.
pub const PAUSE: &'static str = "pause";

/// Resume remapping.
pub const RESUME: &'static str = "resume";

/// Open the active preset's `.kbd` in the default editor.
pub const EDIT_CONFIG: &'static str = "edit-config";

/// Re-validate the active preset's `.kbd` and report.
pub const VALIDATE_CONFIG: &'static str = "validate-config";

/// Show the daemon's device list.
pub const DEVICES: &'static str = "devices";

/// Open the daemon log directory ("View Logs").
pub const VIEW_LOGS: &'static str = "view-logs";

/// Toggle "Launch at Login" (the per-user LaunchAgent).
pub const LOGIN: &'static str = "login";

/// Run `doctor` and show the result.
pub const DOCTOR: &'static str = "doctor";

/// Open the first-run setup wizard steps.
pub const WIZARD: &'static str = "wizard";

/// Quit the tray (leaves the daemon running).
pub const QUIT: &'static str = "quit";

/// Prefix for a preset item; the suffix is the preset name.
pub const PRESET_PREFIX: &'static str = "preset:";

} // verus!
