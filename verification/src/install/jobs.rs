//! The launchd jobs of an install and an uninstall: each is named after its plist
//! file, loaded only once that file is there, and unloaded before it goes.

use vstd::prelude::*;

use crate::install::plan::{self, HostFacts, StepView};
use crate::install::{self, places, Component, TargetUser};
use crate::paths::names;
use crate::vhidd;

verus! {

/// The name of the file that a path leads to.
pub open spec fn file_name(path: Seq<char>) -> Seq<char> {
    names::names_of(path).last()
}

/// The path leads to a plist file.
pub open spec fn is_plist(path: Seq<char>) -> bool {
    let file = file_name(path);
    &&& names::names_of(path).len() > 0
    &&& file.len() > 6
    &&& file.skip(file.len() - 6) == ".plist"@
}

/// The job that a plist registers in a domain: the domain, a slash, and the label
/// that the file is named after.
pub open spec fn job_of(domain: Seq<char>, plist: Seq<char>) -> Seq<char> {
    domain + "/"@ + file_name(plist).take(file_name(plist).len() - 6)
}

/// The plist of a label, in the directory of system jobs below the prefix,
/// registers the job of that label.
proof fn system_job_is_named_after_its_plist(prefix: Seq<char>)
    ensures
        ({
            let plist = install::under_path(prefix, install::DAEMON_PLIST_PATH@);
            is_plist(plist) && job_of("system"@, plist) == install::system_target(
                install::DAEMON_LABEL@,
            )
        }),
        ({
            let plist = install::under_path(prefix, install::VHIDD_PLIST_PATH@);
            is_plist(plist) && job_of("system"@, plist) == install::system_target(
                vhidd::VHIDD_LABEL@,
            )
        }),
{
    reveal_strlit("system");
    reveal_strlit("/");
    reveal_strlit("system/");
    reveal_strlit(".plist");
    assert("system"@ + "/"@ =~= "system/"@);
    let daemon = install::DAEMON_PLIST_PATH@;
    let driver = install::VHIDD_PLIST_PATH@;
    places::daemon_plist_file();
    places::vhidd_plist_file();
    install::names_under_the_prefix(prefix, daemon);
    install::names_under_the_prefix(prefix, driver);
    let a = file_name(install::under_path(prefix, daemon));
    let b = file_name(install::under_path(prefix, driver));
    assert(a == install::DAEMON_LABEL@ + ".plist"@);
    assert(b == vhidd::VHIDD_LABEL@ + ".plist"@);
    assert(a.take(a.len() - 6) =~= install::DAEMON_LABEL@);
    assert(b.take(b.len() - 6) =~= vhidd::VHIDD_LABEL@);
    assert(a.skip(a.len() - 6) =~= ".plist"@);
    assert(b.skip(b.len() - 6) =~= ".plist"@);
    reveal_strlit("io.github.ibimal.kanatabar.daemon");
    reveal_strlit("io.github.ibimal.kanatabar.vhidd");
}

/// The agent's plist registers the agent's job in the user's session.
proof fn agent_job_is_named_after_its_plist(prefix: Seq<char>, home: Seq<char>, uid: u32)
    ensures
        is_plist(plan::agent_plist_at(prefix, home)),
        job_of(install::gui_domain(uid), plan::agent_plist_at(prefix, home))
            == install::agent_target_of(uid),
{
    reveal_strlit(".plist");
    reveal_strlit("io.github.ibimal.kanatabar.agent");
    places::agent_path(prefix, home);
    let a = file_name(plan::agent_plist_at(prefix, home));
    assert(a == install::AGENT_LABEL@ + ".plist"@);
    assert(a.take(a.len() - 6) =~= install::AGENT_LABEL@);
    assert(a.skip(a.len() - 6) =~= ".plist"@);
}

/// Every job that an install loads is named after its plist, which an earlier
/// step wrote, and was unloaded just before, in case an earlier install left it
/// loaded.
pub proof fn jobs_are_loaded_from_their_plists(
    component: Component,
    prefix: Seq<char>,
    host: HostFacts,
    i: int,
) -> (w: int)
    requires
        0 <= i < plan::install_steps(component, prefix, false, host).len(),
        plan::install_steps(component, prefix, false, host)[i] is Bootstrap,
    ensures
        ({
            let steps = plan::install_steps(component, prefix, false, host);
            let domain = steps[i]->domain;
            let plist = steps[i]->plist;
            &&& is_plist(plist)
            &&& 0 <= w < i - 1
            &&& plan::creates(steps[w]) == Some(plist)
            &&& steps[i - 1] == StepView::Bootout { target: job_of(domain, plist) }
        }),
{
    system_job_is_named_after_its_plist(prefix);
    let steps = plan::install_steps(component, prefix, false, host);
    let daemon = plan::daemon_steps(prefix, false);
    let driver = plan::vhidd_steps(prefix, false, host.management, host.vhidd_binary);
    let cut: int = if component is Agent {
        0
    } else {
        (daemon + driver).len() as int
    };
    if i < cut {
        assert(steps[i] == (daemon + driver)[i]);
        assert(steps[i - 1] == (daemon + driver)[i - 1]);
        if i < daemon.len() {
            assert(i == 8);
            assert(steps[6] == daemon[6]);
            6
        } else {
            assert(i == 11);
            assert(steps[9] == driver[0]);
            assert(steps[10] == driver[1]);
            9
        }
    } else {
        match host.user {
            Ok(user) => {
                let agent = plan::agent_steps(
                    prefix,
                    false,
                    user.uid,
                    user.home@,
                    host.bundled,
                );
                agent_job_is_named_after_its_plist(prefix, user.home@, user.uid);
                assert(steps[i] == agent[i - cut]);
                assert(i - cut == 3);
                assert(steps[i - 1] == agent[2]);
                assert(steps[i - 2] == agent[1]);
                i - 2
            },
            Err(message) => {
                assert(steps[i] == StepView::Abort { message: message@ });
                0
            },
        }
    }
}

/// Every job that an install loads, an uninstall of the component unloads, under
/// the name of its plist, before it removes that plist. So nothing of ours stays
/// loaded, and launchd finds no job without its file.
pub proof fn loaded_jobs_are_unloaded(
    component: Component,
    prefix: Seq<char>,
    host: HostFacts,
    i: int,
) -> (k: (int, int))
    requires
        0 <= i < plan::install_steps(component, prefix, false, host).len(),
        plan::install_steps(component, prefix, false, host)[i] is Bootstrap,
    ensures
        ({
            let loaded = plan::install_steps(component, prefix, false, host)[i];
            let undo = plan::uninstall_steps(component, prefix, false, host.user);
            &&& 0 <= k.0 < k.1 < undo.len()
            &&& undo[k.0] == StepView::Bootout { target: job_of(loaded->domain, loaded->plist) }
            &&& undo[k.1] == StepView::Remove { path: loaded->plist }
        }),
{
    system_job_is_named_after_its_plist(prefix);
    let steps = plan::install_steps(component, prefix, false, host);
    let undo = plan::uninstall_steps(component, prefix, false, host.user);
    let daemon = plan::daemon_steps(prefix, false);
    let driver = plan::vhidd_steps(prefix, false, host.management, host.vhidd_binary);
    let away = plan::remove_daemon_steps(prefix, false);
    let cut: int = if component is Agent {
        0
    } else {
        (daemon + driver).len() as int
    };
    if i < cut {
        assert(steps[i] == (daemon + driver)[i]);
        if i < daemon.len() {
            assert(i == 8);
            assert(undo[0] == away[0] && undo[3] == away[3]);
            (0, 3)
        } else {
            assert(i == 11);
            assert(steps[i] == driver[2]);
            assert(undo[1] == away[1] && undo[2] == away[2]);
            (1, 2)
        }
    } else {
        match host.user {
            Ok(user) => {
                let agent = plan::agent_steps(
                    prefix,
                    false,
                    user.uid,
                    user.home@,
                    host.bundled,
                );
                let gone = plan::remove_agent_steps(prefix, false, user.uid, user.home@);
                let from: int = if component is Agent {
                    0
                } else {
                    away.len() as int
                };
                agent_job_is_named_after_its_plist(prefix, user.home@, user.uid);
                assert(steps[i] == agent[i - cut]);
                assert(i - cut == 3);
                assert(undo[from] == gone[0]);
                assert(undo[from + 1] == gone[1]);
                (from, from + 1)
            },
            Err(message) => {
                assert(steps[i] == StepView::Abort { message: message@ });
                (0, 0)
            },
        }
    }
}

/// An uninstall unloads our own jobs only: every job that it boots out is named
/// after a plist that a later step of it removes, in the system's domain or in
/// the user's session.
pub proof fn only_own_jobs_are_unloaded(
    component: Component,
    prefix: Seq<char>,
    user: Result<TargetUser, String>,
    i: int,
) -> (k: int)
    requires
        0 <= i < plan::uninstall_steps(component, prefix, false, user).len(),
        plan::uninstall_steps(component, prefix, false, user)[i] is Bootout,
    ensures
        ({
            let undo = plan::uninstall_steps(component, prefix, false, user);
            &&& i < k < undo.len()
            &&& plan::removes(undo[k]) matches Some(plist) && is_plist(plist) && (undo[i]->target
                == job_of("system"@, plist) || (user matches Ok(user) && undo[i]->target == job_of(
                install::gui_domain(user.uid),
                plist,
            )))
        }),
{
    system_job_is_named_after_its_plist(prefix);
    let undo = plan::uninstall_steps(component, prefix, false, user);
    let away = plan::remove_daemon_steps(prefix, false);
    let from: int = if component is Agent {
        0
    } else {
        away.len() as int
    };
    if i < from {
        assert(undo[i] == away[i]);
        assert(i == 0 || i == 1);
        assert(undo[2] == away[2] && undo[3] == away[3]);
        if i == 0 {
            3
        } else {
            2
        }
    } else {
        match user {
            Ok(user) => {
                let gone = plan::remove_agent_steps(prefix, false, user.uid, user.home@);
                agent_job_is_named_after_its_plist(prefix, user.home@, user.uid);
                assert(undo[i] == gone[i - from]);
                assert(i == from);
                assert(undo[from + 1] == gone[1]);
                from + 1
            },
            Err(message) => {
                assert(undo[i] == StepView::Abort { message: message@ });
                0
            },
        }
    }
}

} // verus!
