//! KanataBar: the logic of a supervisor, a menu-bar client and a control CLI
//! for the kanata keyboard remapper.

use vstd::prelude::*;

pub mod backoff;
pub mod cli;
pub mod client;
pub mod config;
pub mod conn;
pub mod debounce;
pub mod device;
pub mod devwin;
pub mod doctor;
pub mod driver;
pub mod healthwin;
pub mod icons;
pub mod install;
pub mod ipc;
pub mod kanata;
pub mod logring;
pub mod login;
pub mod machine;
pub mod menu;
pub mod model;
pub mod notify;
pub mod pages;
pub mod paths;
pub mod pathsafety;
pub mod reconnect;
pub mod session;
pub mod single_instance;
pub mod state;
pub mod text;
pub mod tray;
pub mod ui_shell;
pub mod vhidd;
pub mod wizard;
pub mod wizardwin;

verus! {

/// Control-protocol version carried in every response/event.
pub const PROTOCOL_VERSION: u32 = 1;

} // verus!
