//! "Launch at Login": the per-user LaunchAgent toggle. Uses the label the
//! installer writes the plist under. Running `launchctl` is the shell's; what to
//! run, and what follows from its outcome, is decided here.

use vstd::prelude::*;

pub use crate::install::{AGENT_LABEL, LAUNCHCTL};
use crate::install::{self, agent_plist, agent_target, user_domain};

verus! {

broadcast use vstd::string::group_string_axioms;

/// The `launchctl` arguments to flip the agent to the *opposite* of
/// `currently_loaded`, in the caller's `gui/<uid>` domain.
pub fn toggle_args(currently_loaded: bool, uid: u32, agent_plist: &str) -> (r: Vec<String>)
    ensures
        r.deep_view() == (if currently_loaded {
            seq!["bootout"@, install::agent_target_of(uid)]
        } else {
            seq!["bootstrap"@, install::gui_domain(uid), agent_plist@]
        }),
{
    if currently_loaded {
        let r = vec!["bootout".to_owned(), agent_target(uid)];
        assert(r.deep_view() =~= seq!["bootout"@, install::agent_target_of(uid)]);
        r
    } else {
        let r = vec!["bootstrap".to_owned(), user_domain(uid), agent_plist.to_owned()];
        assert(r.deep_view() =~= seq!["bootstrap"@, install::gui_domain(uid), agent_plist@]);
        r
    }
}

/// The `launchctl` arguments that succeed exactly while the agent job is loaded
/// in the caller's `gui/<uid>` domain.
pub fn loaded_args(uid: u32) -> (r: Vec<String>)
    ensures
        r.deep_view() == seq!["print"@, install::agent_target_of(uid)],
{
    let r = vec!["print".to_owned(), agent_target(uid)];
    assert(r.deep_view() =~= seq!["print"@, install::agent_target_of(uid)]);
    r
}

/// Whether the agent is loaded after a toggle: flipped if `launchctl`
/// succeeded, else as before.
pub fn after_toggle(loaded: bool, succeeded: bool) -> (r: bool)
    ensures
        r == (if succeeded {
            !loaded
        } else {
            loaded
        }),
{
    if succeeded {
        !loaded
    } else {
        loaded
    }
}

/// Default per-user agent plist path, given the user's home dir.
pub fn default_agent_plist(home: &str) -> (r: String)
    ensures
        r@ == install::agent_plist_of(home@),
{
    agent_plist(home)
}

} // verus!
