//! The System Settings panes the wizard can open.

use vstd::prelude::*;

verus! {

/// Login Items & Extensions (system-extension approval lives here on recent
/// macOS; older releases use the Security pane's "Extensions…").
pub const EXTENSIONS: &'static str =
    "x-apple.systempreferences:com.apple.preference.security?Extensions";

/// Privacy & Security → Input Monitoring.
pub const INPUT_MONITORING: &'static str =
    "x-apple.systempreferences:com.apple.preference.security?Privacy_ListenEvent";

/// Privacy & Security → Accessibility.
pub const ACCESSIBILITY: &'static str =
    "x-apple.systempreferences:com.apple.preference.security?Privacy_Accessibility";

} // verus!
