//! Where what is installed stands among the names of the file system, and where
//! its paths part from one another.

use vstd::prelude::*;

use crate::install::{self, plan};
use crate::paths::{self, names};
use crate::vhidd;

verus! {

/// The path's names begin with these.
pub open spec fn leads_through(path: Seq<char>, start: Seq<Seq<char>>) -> bool {
    &&& names::names_of(path).len() >= start.len()
    &&& forall|k: int| 0 <= k < start.len() ==> #[trigger] names::names_of(path)[k] == start[k]
}

/// `/usr` and `/var` hold the binaries, the completions and the socket.
pub proof fn unix_paths()
    ensures
        leads_through(install::DAEMON_BIN@, seq!["usr"@]),
        leads_through(install::CTL_BIN@, seq!["usr"@]),
        leads_through(install::UNBUNDLED_TRAY@, seq!["usr"@]),
        leads_through(install::BASH_COMPLETION_PATH@, seq!["usr"@]),
        leads_through(install::ZSH_COMPLETION_PATH@, seq!["usr"@]),
        leads_through(install::FISH_COMPLETION_PATH@, seq!["usr"@]),
        leads_through(install::SOCKET@, seq!["var"@]),
{
    reveal_with_fuel(names::spelled, 4);
    reveal_strlit("usr");
    reveal_strlit("var");
    reveal_strlit("/usr/local/bin/kanatad");
    reveal_strlit("/usr/local/bin/kanatactl");
    reveal_strlit("/usr/local/bin/kanatabar-tray");
    reveal_strlit("/usr/local/etc/bash_completion.d/kanatactl");
    reveal_strlit("/usr/local/share/zsh/site-functions/_kanatactl");
    reveal_strlit("/usr/local/share/fish/vendor_completions.d/kanatactl.fish");
    reveal_strlit("/var/run/kanatabar.sock");
    assert(install::DAEMON_BIN@.skip(0) =~= install::DAEMON_BIN@);
    names::next_name(install::DAEMON_BIN@, 0, "usr"@);
    assert(install::CTL_BIN@.skip(0) =~= install::CTL_BIN@);
    names::next_name(install::CTL_BIN@, 0, "usr"@);
    assert(install::UNBUNDLED_TRAY@.skip(0) =~= install::UNBUNDLED_TRAY@);
    names::next_name(install::UNBUNDLED_TRAY@, 0, "usr"@);
    assert(install::BASH_COMPLETION_PATH@.skip(0) =~= install::BASH_COMPLETION_PATH@);
    names::next_name(install::BASH_COMPLETION_PATH@, 0, "usr"@);
    assert(install::ZSH_COMPLETION_PATH@.skip(0) =~= install::ZSH_COMPLETION_PATH@);
    names::next_name(install::ZSH_COMPLETION_PATH@, 0, "usr"@);
    assert(install::FISH_COMPLETION_PATH@.skip(0) =~= install::FISH_COMPLETION_PATH@);
    names::next_name(install::FISH_COMPLETION_PATH@, 0, "usr"@);
    assert(install::SOCKET@.skip(0) =~= install::SOCKET@);
    names::next_name(install::SOCKET@, 0, "var"@);
}

/// The directory that system jobs are registered in.
pub proof fn daemon_plist_path()
    ensures
        leads_through(install::DAEMON_PLIST_PATH@, seq!["Library"@, "LaunchDaemons"@]),
{
    reveal_with_fuel(names::spelled, 14);
    reveal_strlit("Library");
    reveal_strlit("LaunchDaemons");
    reveal_strlit("/Library/LaunchDaemons/io.github.ibimal.kanatabar.daemon.plist");
    let path = install::DAEMON_PLIST_PATH@;
    assert(path.skip(0) =~= path);
    names::next_name(path, 0, "Library"@);
    names::next_name(path, 8, "LaunchDaemons"@);
}

/// The driver's job is registered next to the daemon's.
pub proof fn vhidd_plist_path()
    ensures
        leads_through(install::VHIDD_PLIST_PATH@, seq!["Library"@, "LaunchDaemons"@]),
{
    reveal_with_fuel(names::spelled, 14);
    reveal_strlit("Library");
    reveal_strlit("LaunchDaemons");
    reveal_strlit("/Library/LaunchDaemons/io.github.ibimal.kanatabar.vhidd.plist");
    let path = install::VHIDD_PLIST_PATH@;
    assert(path.skip(0) =~= path);
    names::next_name(path, 0, "Library"@);
    names::next_name(path, 8, "LaunchDaemons"@);
}

/// The whole path of that job's plist: the file is named after the job's label.
pub proof fn daemon_plist_file()
    ensures
        names::names_of(install::DAEMON_PLIST_PATH@) == seq![
            "Library"@,
            "LaunchDaemons"@,
            install::DAEMON_LABEL@ + ".plist"@,
        ],
{
    reveal_with_fuel(names::spelled, 40);
    reveal_strlit("Library");
    reveal_strlit("LaunchDaemons");
    reveal_strlit("io.github.ibimal.kanatabar.daemon");
    reveal_strlit(".plist");
    reveal_strlit("/Library/LaunchDaemons/io.github.ibimal.kanatabar.daemon.plist");
    let path = install::DAEMON_PLIST_PATH@;
    let file = install::DAEMON_LABEL@ + ".plist"@;
    names::empty_path_has_no_names();
    assert(path.skip(0) =~= path);
    names::next_name(path, 0, "Library"@);
    names::next_name(path, 8, "LaunchDaemons"@);
    names::next_name(path, 22, file);
    assert(path.skip(62) =~= Seq::empty());
    assert(names::names_of(path) =~= seq!["Library"@, "LaunchDaemons"@, file]);
}

/// The whole path of that job's plist: the file is named after the job's label.
pub proof fn vhidd_plist_file()
    ensures
        names::names_of(install::VHIDD_PLIST_PATH@) == seq![
            "Library"@,
            "LaunchDaemons"@,
            vhidd::VHIDD_LABEL@ + ".plist"@,
        ],
{
    reveal_with_fuel(names::spelled, 40);
    reveal_strlit("Library");
    reveal_strlit("LaunchDaemons");
    reveal_strlit("io.github.ibimal.kanatabar.vhidd");
    reveal_strlit(".plist");
    reveal_strlit("/Library/LaunchDaemons/io.github.ibimal.kanatabar.vhidd.plist");
    let path = install::VHIDD_PLIST_PATH@;
    let file = vhidd::VHIDD_LABEL@ + ".plist"@;
    names::empty_path_has_no_names();
    assert(path.skip(0) =~= path);
    names::next_name(path, 0, "Library"@);
    names::next_name(path, 8, "LaunchDaemons"@);
    names::next_name(path, 22, file);
    assert(path.skip(61) =~= Seq::empty());
    assert(names::names_of(path) =~= seq!["Library"@, "LaunchDaemons"@, file]);
}

/// The logs.
pub proof fn logs_path()
    ensures
        leads_through(install::LOGS_DIR@, seq!["Library"@, "Logs"@]),
{
    reveal_with_fuel(names::spelled, 8);
    reveal_strlit("Library");
    reveal_strlit("Logs");
    reveal_strlit("/Library/Logs/KanataBar");
    let path = install::LOGS_DIR@;
    assert(path.skip(0) =~= path);
    names::next_name(path, 0, "Library"@);
    names::next_name(path, 8, "Logs"@);
}

/// The daemon's own state.
pub proof fn support_path()
    ensures
        leads_through(install::SUPPORT_DIR@, seq!["Library"@, "Application Support"@, "KanataBar"@]),
{
    reveal_with_fuel(names::spelled, 20);
    reveal_strlit("Library");
    reveal_strlit("Application Support");
    reveal_strlit("KanataBar");
    reveal_strlit("/Library/Application Support/KanataBar");
    let path = install::SUPPORT_DIR@;
    assert(path.skip(0) =~= path);
    names::next_name(path, 0, "Library"@);
    names::next_name(path, 8, "Application Support"@);
    names::next_name(path, 28, "KanataBar"@);
}

/// Every name on the way to Karabiner's daemon.
pub proof fn karabiner_path()
    ensures
        names::names_of(vhidd::VHIDD_BINARY@) == seq![
            "Library"@,
            "Application Support"@,
            "org.pqrs"@,
            "Karabiner-DriverKit-VirtualHIDDevice"@,
            "Applications"@,
            "Karabiner-VirtualHIDDevice-Daemon.app"@,
            "Contents"@,
            "MacOS"@,
            "Karabiner-VirtualHIDDevice-Daemon"@,
        ],
{
    reveal_with_fuel(names::spelled, 40);
    reveal_strlit("Library");
    reveal_strlit("Application Support");
    reveal_strlit("org.pqrs");
    reveal_strlit("Karabiner-DriverKit-VirtualHIDDevice");
    reveal_strlit("Applications");
    reveal_strlit("Karabiner-VirtualHIDDevice-Daemon.app");
    reveal_strlit("Contents");
    reveal_strlit("MacOS");
    reveal_strlit("Karabiner-VirtualHIDDevice-Daemon");
    reveal_strlit(
        "/Library/Application Support/org.pqrs/Karabiner-DriverKit-VirtualHIDDevice/Applications/Karabiner-VirtualHIDDevice-Daemon.app/Contents/MacOS/Karabiner-VirtualHIDDevice-Daemon",
    );
    let path = vhidd::VHIDD_BINARY@;
    names::empty_path_has_no_names();
    assert(path.skip(0) =~= path);
    names::next_name(path, 0, "Library"@);
    names::next_name(path, 8, "Application Support"@);
    names::next_name(path, 28, "org.pqrs"@);
    names::next_name(path, 37, "Karabiner-DriverKit-VirtualHIDDevice"@);
    names::next_name(path, 74, "Applications"@);
    names::next_name(path, 87, "Karabiner-VirtualHIDDevice-Daemon.app"@);
    names::next_name(path, 125, "Contents"@);
    names::next_name(path, 134, "MacOS"@);
    names::next_name(path, 140, "Karabiner-VirtualHIDDevice-Daemon"@);
    assert(path.skip(174) =~= Seq::empty());
    assert(names::names_of(path) =~= seq![
        "Library"@,
        "Application Support"@,
        "org.pqrs"@,
        "Karabiner-DriverKit-VirtualHIDDevice"@,
        "Applications"@,
        "Karabiner-VirtualHIDDevice-Daemon.app"@,
        "Contents"@,
        "MacOS"@,
        "Karabiner-VirtualHIDDevice-Daemon"@,
    ]);
}

/// The app bundle's names, and those of the file inside that tells what it is.
pub proof fn bundle_paths(prefix: Seq<char>)
    ensures
        names::names_of(install::APP_BUNDLE@) == seq!["Applications"@, "KanataBar.app"@],
        names::names_of(install::info_plist(install::under_path(prefix, install::APP_BUNDLE@)))
            == names::names_of(prefix) + seq![
            "Applications"@,
            "KanataBar.app"@,
            "Contents"@,
            "Info.plist"@,
        ],
{
    reveal_with_fuel(names::spelled, 14);
    reveal_strlit("Applications");
    reveal_strlit("KanataBar.app");
    reveal_strlit("/Applications/KanataBar.app");
    reveal_strlit("Contents/Info.plist");
    reveal_strlit("Contents");
    reveal_strlit("Info.plist");
    let path = install::APP_BUNDLE@;
    names::empty_path_has_no_names();
    assert(path.skip(0) =~= path);
    names::next_name(path, 0, "Applications"@);
    names::next_name(path, 13, "KanataBar.app"@);
    assert(path.skip(27) =~= Seq::empty());
    assert(names::names_of(path) =~= seq!["Applications"@, "KanataBar.app"@]);
    names::two_names("Contents/Info.plist"@, "Contents"@, "Info.plist"@);
    install::names_under_the_prefix(prefix, path);
    names::names_of_joined(install::under_path(prefix, path), "Contents/Info.plist"@);
    assert(names::names_of(install::info_plist(install::under_path(prefix, path)))
        =~= names::names_of(prefix) + seq![
        "Applications"@,
        "KanataBar.app"@,
        "Contents"@,
        "Info.plist"@,
    ]);
}

/// The agent plist stands three names below the home directory.
pub proof fn agent_path(prefix: Seq<char>, home: Seq<char>)
    ensures
        names::names_of(plan::agent_plist_at(prefix, home)) == names::names_of(prefix)
            + names::names_of(home) + seq![
            "Library"@,
            "LaunchAgents"@,
            install::AGENT_LABEL@ + ".plist"@,
        ],
{
    reveal_with_fuel(names::spelled, 40);
    reveal_strlit("Library/LaunchAgents");
    reveal_strlit("Library");
    reveal_strlit("LaunchAgents");
    reveal_strlit("io.github.ibimal.kanatabar.agent");
    reveal_strlit(".plist");
    let file = install::AGENT_LABEL@ + ".plist"@;
    names::two_names("Library/LaunchAgents"@, "Library"@, "LaunchAgents"@);
    names::lone_name(file);
    let dir = paths::joined(home, "Library/LaunchAgents"@);
    names::names_of_joined(home, "Library/LaunchAgents"@);
    names::names_of_joined(dir, file);
    install::names_under_the_prefix(prefix, install::agent_plist_of(home));
    assert(names::names_of(plan::agent_plist_at(prefix, home)) =~= names::names_of(prefix)
        + names::names_of(home) + seq!["Library"@, "LaunchAgents"@, file]);
}

/// None of the names on the way to Karabiner's daemon is that of our agent plist.
pub proof fn karabiner_names(j: int)
    requires
        0 <= j < names::names_of(vhidd::VHIDD_BINARY@).len(),
    ensures
        names::names_of(vhidd::VHIDD_BINARY@)[j] != install::AGENT_LABEL@ + ".plist"@,
{
    karabiner_path();
    reveal_strlit("Library");
    reveal_strlit("Application Support");
    reveal_strlit("org.pqrs");
    reveal_strlit("Karabiner-DriverKit-VirtualHIDDevice");
    reveal_strlit("Applications");
    reveal_strlit("Karabiner-VirtualHIDDevice-Daemon.app");
    reveal_strlit("Contents");
    reveal_strlit("MacOS");
    reveal_strlit("Karabiner-VirtualHIDDevice-Daemon");
    reveal_strlit("io.github.ibimal.kanatabar.agent");
    assert((install::AGENT_LABEL@ + ".plist"@)[0] == 'i');
    assert(j == 0 || j == 1 || j == 2 || j == 3 || j == 4 || j == 5 || j == 6 || j == 7 || j == 8);
}

/// The names by which the paths part ways.
pub proof fn names_differ()
    ensures
        "usr"@ != "Library"@,
        "var"@ != "Library"@,
        "usr"@ != "Applications"@,
        "var"@ != "Applications"@,
        "Library"@ != "Applications"@,
        "Library"@ != "KanataBar.app"@,
        "LaunchDaemons"@ != "Application Support"@,
        "Logs"@ != "Application Support"@,
        "KanataBar"@ != "org.pqrs"@,
{
    reveal_strlit("usr");
    reveal_strlit("var");
    reveal_strlit("Library");
    reveal_strlit("LaunchDaemons");
    reveal_strlit("Logs");
    reveal_strlit("Application Support");
    reveal_strlit("KanataBar");
    reveal_strlit("KanataBar.app");
    reveal_strlit("org.pqrs");
    reveal_strlit("Applications");
    assert("usr"@.len() == 3 && "var"@.len() == 3 && "Logs"@.len() == 4);
    assert("Library"@.len() == 7 && "org.pqrs"@.len() == 8 && "KanataBar"@.len() == 9);
    assert("Applications"@.len() == 12 && "LaunchDaemons"@.len() == 13);
    assert("KanataBar.app"@.len() == 13 && "Application Support"@.len() == 19);
}

/// The entry lies, below the prefix, where `names` leads, and the names lead
/// away from `path`: so it does not lie at or below `path` below the prefix.
pub proof fn elsewhere(prefix: Seq<char>, names: Seq<Seq<char>>, path: Seq<char>, k: int)
    requires
        0 <= k < names::names_of(path).len(),
        k < names.len() ==> names[k] != names::names_of(path)[k],
    ensures
        !names::at_or_below(
            names::names_of(prefix) + names,
            names::names_of(install::under_path(prefix, path)),
        ),
{
    let base = names::names_of(prefix);
    install::names_under_the_prefix(prefix, path);
    names::not_below(
        base + names,
        names::names_of(install::under_path(prefix, path)),
        base.len() + k,
    );
}

} // verus!
