//! Where the tray's single-instance lock file lives. The *root*
//! `/Library/Application Support/KanataBar` isn't writable by an unprivileged
//! user, so it is under the user's own `~/Library`.

use vstd::prelude::*;

use crate::paths;

verus! {

/// The lock file below a home directory.
pub const LOCK_FILE: &'static str = "Library/Application Support/KanataBar/tray.lock";

/// Default lock path for the user with that home directory; below `/tmp` where
/// none is known.
pub fn default_path(home: Option<&str>) -> (r: String)
    ensures
        r@ == paths::joined(
            match home {
                Some(home) => home@,
                None => "/tmp"@,
            },
            LOCK_FILE@,
        ),
{
    let base = match home {
        Some(home) => home,
        None => "/tmp",
    };
    paths::join(base, LOCK_FILE)
}

} // verus!
