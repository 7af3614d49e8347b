//! The files of an install and an uninstall: which are put where, under which
//! mode, and which go again.

use vstd::prelude::*;

use crate::install::plan::{self, HostFacts, StepView};
use crate::install::{self, resources, Component, TargetUser};
use crate::vhidd::VhiddManagement;

verus! {

/// Installing or uninstalling both components is doing the one and then the
/// other.
pub proof fn both_is_one_after_the_other(
    prefix: Seq<char>,
    skip: bool,
    host: HostFacts,
    user: Result<TargetUser, String>,
)
    ensures
        plan::install_steps(Component::Both, prefix, skip, host) == plan::install_steps(
            Component::Daemon,
            prefix,
            skip,
            host,
        ) + plan::install_steps(Component::Agent, prefix, skip, host),
        plan::uninstall_steps(Component::Both, prefix, skip, user) == plan::uninstall_steps(
            Component::Daemon,
            prefix,
            skip,
            user,
        ) + plan::uninstall_steps(Component::Agent, prefix, skip, user),
{
    let none = Seq::<StepView>::empty();
    assert(plan::install_steps(Component::Both, prefix, skip, host) =~= plan::install_steps(
        Component::Daemon,
        prefix,
        skip,
        host,
    ) + plan::install_steps(Component::Agent, prefix, skip, host));
    assert(plan::uninstall_steps(Component::Both, prefix, skip, user) =~= plan::uninstall_steps(
        Component::Daemon,
        prefix,
        skip,
        user,
    ) + plan::uninstall_steps(Component::Agent, prefix, skip, user));
}

/// Skipping `launchctl` leaves the unloading of jobs out of an uninstall, and
/// nothing else: the same files are removed, in the same order.
pub proof fn skipping_launchctl_keeps_the_files(
    component: Component,
    prefix: Seq<char>,
    user: Result<TargetUser, String>,
)
    ensures
        plan::uninstall_steps(component, prefix, true, user) == plan::uninstall_steps(
            component,
            prefix,
            false,
            user,
        ).filter(|step: StepView| !(step is Bootout)),
{
    let keep = not_bootout();
    let none = Seq::<StepView>::empty();
    let daemon = if component is Agent {
        none
    } else {
        plan::remove_daemon_steps(prefix, false)
    };
    let agent = if component is Daemon {
        none
    } else {
        match user {
            Ok(user) => plan::remove_agent_steps(prefix, false, user.uid, user.home@),
            Err(message) => seq![StepView::Abort { message: message@ }],
        }
    };
    none_left(none, keep);
    daemon_without_bootouts(prefix);
    match user {
        Ok(user) => agent_without_bootouts(prefix, user.uid, user.home@),
        Err(message) => all_left(seq![StepView::Abort { message: message@ }], keep),
    }
    filter_concat(daemon, agent, keep);
    assert(plan::uninstall_steps(component, prefix, false, user) == daemon + agent);
    assert(not_bootout() =~= (|step: StepView| !(step is Bootout)));
}

spec fn not_bootout() -> spec_fn(StepView) -> bool {
    |step: StepView| !(step is Bootout)
}

proof fn daemon_without_bootouts(prefix: Seq<char>)
    ensures
        plan::remove_daemon_steps(prefix, false).filter(not_bootout())
            == plan::remove_daemon_steps(prefix, true),
{
    let keep = not_bootout();
    let daemon = plan::remove_daemon_steps(prefix, false);
    let (head, tail) = (daemon.take(2), daemon.skip(2));
    assert(tail =~= plan::remove_daemon_steps(prefix, true));
    assert(daemon =~= head + tail);
    filter_concat(head, tail, keep);
    none_left(head, keep);
    all_left(tail, keep);
    assert(Seq::<StepView>::empty() + tail =~= tail);
}

proof fn agent_without_bootouts(prefix: Seq<char>, uid: u32, home: Seq<char>)
    ensures
        plan::remove_agent_steps(prefix, false, uid, home).filter(not_bootout())
            == plan::remove_agent_steps(prefix, true, uid, home),
{
    let keep = not_bootout();
    let agent = plan::remove_agent_steps(prefix, false, uid, home);
    let (head, tail) = (agent.take(1), agent.skip(1));
    assert(tail =~= plan::remove_agent_steps(prefix, true, uid, home));
    assert(agent =~= head + tail);
    filter_concat(head, tail, keep);
    none_left(head, keep);
    all_left(tail, keep);
    assert(Seq::<StepView>::empty() + tail =~= tail);
}

proof fn filter_concat(a: Seq<StepView>, b: Seq<StepView>, keep: spec_fn(StepView) -> bool)
    ensures
        (a + b).filter(keep) == a.filter(keep) + b.filter(keep),
    decreases b.len(),
{
    reveal(Seq::filter);
    if b.len() == 0 {
        assert(a + b =~= a);
        assert(a.filter(keep) + b.filter(keep) =~= a.filter(keep));
    } else {
        assert((a + b).drop_last() =~= a + b.drop_last());
        assert((a + b).last() == b.last());
        filter_concat(a, b.drop_last(), keep);
        assert((a + b).filter(keep) =~= a.filter(keep) + b.filter(keep));
    }
}

proof fn none_left(a: Seq<StepView>, keep: spec_fn(StepView) -> bool)
    requires
        forall|i: int| 0 <= i < a.len() ==> !keep(#[trigger] a[i]),
    ensures
        a.filter(keep) == Seq::<StepView>::empty(),
    decreases a.len(),
{
    reveal(Seq::filter);
    if a.len() > 0 {
        let before = a.drop_last();
        assert forall|i: int| 0 <= i < before.len() implies !keep(#[trigger] before[i]) by {
            assert(before[i] == a[i]);
        }
        none_left(before, keep);
        assert(!keep(a[a.len() - 1]));
    }
}

proof fn all_left(a: Seq<StepView>, keep: spec_fn(StepView) -> bool)
    requires
        forall|i: int| 0 <= i < a.len() ==> keep(#[trigger] a[i]),
    ensures
        a.filter(keep) == a,
    decreases a.len(),
{
    reveal(Seq::filter);
    if a.len() > 0 {
        let before = a.drop_last();
        assert forall|i: int| 0 <= i < before.len() implies keep(#[trigger] before[i]) by {
            assert(before[i] == a[i]);
        }
        all_left(before, keep);
        assert(keep(a[a.len() - 1]));
        assert(a =~= before.push(a.last()));
    }
}

/// What an install puts in place: binaries and directories are for everyone to
/// run and enter, files for everyone to read, and only their owner writes any.
pub proof fn installed_modes(
    component: Component,
    prefix: Seq<char>,
    skip: bool,
    host: HostFacts,
    i: int,
)
    requires
        0 <= i < plan::install_steps(component, prefix, skip, host).len(),
    ensures
        match plan::install_steps(component, prefix, skip, host)[i] {
            StepView::CopyBinary { name: _, to: _, mode } => mode == 0o755,
            StepView::MakeDir { path: _, mode } => mode == 0o755,
            StepView::WriteFile { path: _, contents: _, mode } => mode == 0o644,
            StepView::WriteUserFile { path: _, body: _, mode } => mode == 0o644,
            StepView::Remove { path: _ } => false,
            StepView::RemoveBundle { path: _ } => false,
            _ => true,
        },
{
    let steps = plan::install_steps(component, prefix, skip, host);
    let daemon = plan::daemon_steps(prefix, skip);
    let driver = plan::vhidd_steps(prefix, skip, host.management, host.vhidd_binary);
    let cut: int = if component is Agent {
        0
    } else {
        (daemon + driver).len() as int
    };
    if i < cut {
        assert(steps[i] == (daemon + driver)[i]);
        if i >= daemon.len() {
            assert(steps[i] == driver[i - daemon.len()]);
        }
    } else if let Ok(user) = host.user {
        assert(steps[i] == plan::agent_steps(
            prefix,
            skip,
            user.uid,
            user.home@,
            host.bundled,
        )[i - cut]);
    } else {
        assert(steps[i] is Abort);
    }
}

/// Installing the daemon puts both binaries, the completions of the three shells,
/// the log directory and the daemon's plist where the system looks for them.
pub proof fn the_daemon_is_put_in_place(prefix: Seq<char>, skip: bool, host: HostFacts)
    ensures
        ({
            let steps = plan::install_steps(Component::Daemon, prefix, skip, host);
            let at = |path: Seq<char>| install::under_path(prefix, path);
            &&& steps.contains(
                StepView::CopyBinary {
                    name: "kanatad"@,
                    to: at("/usr/local/bin/kanatad"@),
                    mode: 0o755,
                },
            )
            &&& steps.contains(
                StepView::CopyBinary {
                    name: "kanatactl"@,
                    to: at("/usr/local/bin/kanatactl"@),
                    mode: 0o755,
                },
            )
            &&& steps.contains(
                StepView::WriteFile {
                    path: at("/usr/local/etc/bash_completion.d/kanatactl"@),
                    contents: resources::BASH_COMPLETION@,
                    mode: 0o644,
                },
            )
            &&& steps.contains(
                StepView::WriteFile {
                    path: at("/usr/local/share/zsh/site-functions/_kanatactl"@),
                    contents: resources::ZSH_COMPLETION@,
                    mode: 0o644,
                },
            )
            &&& steps.contains(
                StepView::WriteFile {
                    path: at("/usr/local/share/fish/vendor_completions.d/kanatactl.fish"@),
                    contents: resources::FISH_COMPLETION@,
                    mode: 0o644,
                },
            )
            &&& steps.contains(
                StepView::MakeDir { path: at("/Library/Logs/KanataBar"@), mode: 0o755 },
            )
            &&& steps.contains(
                StepView::WriteFile {
                    path: at("/Library/LaunchDaemons/io.github.ibimal.kanatabar.daemon.plist"@),
                    contents: resources::DAEMON_PLIST@,
                    mode: 0o644,
                },
            )
        }),
{
    let steps = plan::install_steps(Component::Daemon, prefix, skip, host);
    let daemon = plan::daemon_steps(prefix, skip);
    assert(forall|k: int| 0 <= k < 7 ==> #[trigger] steps[k] == daemon[k]);
    assert(steps[0] == daemon[0] && steps[1] == daemon[1] && steps[2] == daemon[2]);
    assert(steps[3] == daemon[3] && steps[4] == daemon[4] && steps[5] == daemon[5]);
    assert(steps[6] == daemon[6]);
}

/// The driver's job is registered exactly when the driver is there and nobody
/// else keeps it running; otherwise the user is told why not.
pub proof fn the_driver_is_supervised_once(
    prefix: Seq<char>,
    skip: bool,
    management: VhiddManagement,
    binary_present: bool,
)
    ensures
        ({
            let steps = plan::vhidd_steps(prefix, skip, management, binary_present);
            let wanted = binary_present && (management is Ours || management is Unmanaged);
            &&& wanted <==> exists|i: int| 0 <= i < steps.len() && #[trigger] steps[i] is WriteFile
            &&& wanted ==> steps[0] == (StepView::WriteFile {
                path: install::under_path(
                    prefix,
                    "/Library/LaunchDaemons/io.github.ibimal.kanatabar.vhidd.plist"@,
                ),
                contents: resources::VHIDD_PLIST@,
                mode: 0o644,
            })
            &&& wanted && !skip ==> exists|i: int|
                0 <= i < steps.len() && #[trigger] steps[i] is Bootstrap
            &&& !wanted ==> steps.len() == 1 && steps[0] is Say
        }),
{
    let steps = plan::vhidd_steps(prefix, skip, management, binary_present);
    if binary_present && !(management is Other) {
        assert(steps[0] is WriteFile);
        if !skip {
            assert(steps[2] is Bootstrap);
        }
    }
}

/// The agent's plist goes into the user's home, for the tray that is installed:
/// the one in the app bundle where there is one, and then no other copy is kept;
/// else the one that the install copies.
pub proof fn the_agent_runs_the_installed_tray(
    prefix: Seq<char>,
    skip: bool,
    uid: u32,
    home: Seq<char>,
    bundled: bool,
)
    ensures
        ({
            let steps = plan::agent_steps(prefix, skip, uid, home, bundled);
            let bare = install::under_path(prefix, "/usr/local/bin/kanatabar-tray"@);
            let plist = plan::agent_plist_at(prefix, home);
            &&& bundled ==> steps.contains(StepView::RemoveStale { path: bare })
            &&& bundled ==> forall|i: int|
                0 <= i < steps.len() ==> !(#[trigger] steps[i] is CopyBinary)
            &&& bundled ==> steps.contains(
                StepView::WriteUserFile {
                    path: plist,
                    body: install::agent_plist_text(
                        home,
                        "/Applications/KanataBar.app/Contents/MacOS/kanatabar-tray"@,
                    ),
                    mode: 0o644,
                },
            )
            &&& !bundled ==> steps.contains(
                StepView::CopyBinary { name: "kanatabar-tray"@, to: bare, mode: 0o755 },
            )
            &&& !bundled ==> steps.contains(
                StepView::WriteUserFile {
                    path: plist,
                    body: install::agent_plist_text(home, "/usr/local/bin/kanatabar-tray"@),
                    mode: 0o644,
                },
            )
        }),
{
    let steps = plan::agent_steps(prefix, skip, uid, home, bundled);
    let plist = plan::agent_plist_at(prefix, home);
    if bundled {
        assert(steps[0] is RemoveStale);
    } else {
        assert(steps[0] is CopyBinary);
    }
    assert(steps[1] is WriteUserFile);
}

/// Uninstalling removes, besides what the install put in place, what the daemon
/// left behind: its socket, its state and its logs; and of the agent the tray and
/// the app bundle, the latter only where it is ours.
pub proof fn what_was_left_behind_goes_too(prefix: Seq<char>, skip: bool, user: TargetUser)
    ensures
        ({
            let at = |path: Seq<char>| install::under_path(prefix, path);
            let daemon = plan::uninstall_steps(Component::Daemon, prefix, skip, Ok(user));
            let agent = plan::uninstall_steps(Component::Agent, prefix, skip, Ok(user));
            &&& daemon.contains(StepView::Remove { path: at("/var/run/kanatabar.sock"@) })
            &&& daemon.contains(
                StepView::Remove { path: at("/Library/Application Support/KanataBar"@) },
            )
            &&& daemon.contains(StepView::Remove { path: at("/Library/Logs/KanataBar"@) })
            &&& agent.contains(StepView::Remove { path: at("/usr/local/bin/kanatabar-tray"@) })
            &&& agent.contains(
                StepView::RemoveBundle { path: at("/Applications/KanataBar.app"@) },
            )
        }),
{
    let daemon = plan::uninstall_steps(Component::Daemon, prefix, skip, Ok(user));
    let agent = plan::uninstall_steps(Component::Agent, prefix, skip, Ok(user));
    let away = plan::remove_daemon_steps(prefix, skip);
    let gone = plan::remove_agent_steps(prefix, skip, user.uid, user.home@);
    let d: int = if skip {
        0
    } else {
        2
    };
    let a: int = if skip {
        0
    } else {
        1
    };
    assert(daemon =~= away);
    assert(agent =~= gone);
    assert(daemon[d + 7] == away[d + 7]);
    assert(daemon[d + 8] == away[d + 8]);
    assert(daemon[d + 9] == away[d + 9]);
    assert(agent[a + 1] == gone[a + 1]);
    assert(agent[a + 2] == gone[a + 2]);
}

} // verus!
