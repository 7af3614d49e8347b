//! What an uninstall does to the disk: the steps carried out on a model of it,
//! and what holds of every disk that they are carried out on.

use vstd::prelude::*;

use crate::install::plan::{self, HostFacts, StepView};
use crate::install::{self, places, BundleAction, Component, EntryKind, Removal, TargetUser};
use crate::paths::names;
use crate::vhidd;

verus! {

/// An entry on the disk. Symlinks are entries of their own and lead nowhere.
pub enum Entry {
    Directory,
    Symlink,
    File(Seq<u8>),
}

/// The entries on the disk, each under the names that its path leads through. A
/// path reaches its entry as it is written: by [`names::names_of`], which neither
/// goes back up at `..` nor follows a symlink. What is stated of a disk holds of
/// paths without either.
pub type Disk = Map<Seq<Seq<char>>, Entry>;

/// What stands at the path.
pub open spec fn kind_at(disk: Disk, path: Seq<char>) -> EntryKind {
    if disk.contains_key(names::names_of(path)) {
        match disk[names::names_of(path)] {
            Entry::Directory => EntryKind::Directory,
            Entry::Symlink => EntryKind::Symlink,
            Entry::File(_) => EntryKind::Other,
        }
    } else {
        EntryKind::Missing
    }
}

/// The bytes of the file at the path, if one stands there.
pub open spec fn contents_at(disk: Disk, path: Seq<char>) -> Option<Seq<u8>> {
    if disk.contains_key(names::names_of(path)) {
        match disk[names::names_of(path)] {
            Entry::File(bytes) => Some(bytes),
            _ => None,
        }
    } else {
        None
    }
}

/// The disk without the entry `dir` and all that is below it.
pub open spec fn without_tree(disk: Disk, dir: Seq<Seq<char>>) -> Disk {
    Map::new(
        |entry: Seq<Seq<char>>| disk.contains_key(entry) && !names::at_or_below(entry, dir),
        |entry: Seq<Seq<char>>| disk[entry],
    )
}

/// An uninstall under way.
#[verifier::ext_equal]
pub struct Progress {
    pub disk: Disk,
    /// The paths reported as removed, in order.
    pub removed: Seq<Seq<char>>,
    /// A step gave up; no further step is carried out.
    pub aborted: bool,
}

/// Nothing has been done yet.
pub open spec fn start(disk: Disk) -> Progress {
    Progress { disk, removed: Seq::empty(), aborted: false }
}

/// Remove what stands at the path, and report it.
pub open spec fn remove_at(now: Progress, path: Seq<char>) -> Progress {
    match install::removal_for(kind_at(now.disk, path)) {
        Removal::Nothing => now,
        Removal::Tree => Progress {
            disk: without_tree(now.disk, names::names_of(path)),
            removed: now.removed.push(path),
            aborted: now.aborted,
        },
        Removal::File => Progress {
            disk: now.disk.remove(names::names_of(path)),
            removed: now.removed.push(path),
            aborted: now.aborted,
        },
    }
}

/// One step of an uninstall carried out. Its other steps leave the disk alone.
pub open spec fn carried_out(now: Progress, step: StepView) -> Progress {
    match step {
        StepView::Remove { path } => remove_at(now, path),
        StepView::RemoveBundle { path } => match install::bundle_decision(
            contents_at(now.disk, install::info_plist(path)),
        ) {
            BundleAction::Remove => remove_at(now, path),
            _ => now,
        },
        StepView::Abort { message: _ } => Progress { aborted: true, ..now },
        _ => now,
    }
}

/// The steps carried out in order, up to the first that gives up.
pub open spec fn after(disk: Disk, steps: Seq<StepView>) -> Progress
    decreases steps.len(),
{
    if steps.len() == 0 {
        start(disk)
    } else {
        let now = after(disk, steps.drop_last());
        if now.aborted {
            now
        } else {
            carried_out(now, steps.last())
        }
    }
}

/// The path that a step removes, or may remove.
pub open spec fn may_remove(step: StepView) -> Option<Seq<char>> {
    match step {
        StepView::Remove { path } => Some(path),
        StepView::RemoveBundle { path } => Some(path),
        _ => None,
    }
}

/// Only the last step may give up.
pub open spec fn gives_up_last(steps: Seq<StepView>) -> bool {
    forall|i: int| 0 <= i < steps.len() - 1 ==> !(#[trigger] steps[i] is Abort)
}

// ── Of any steps ────────────────────────────────────────────────────────────

/// `less` holds nothing that `more` does not hold alike.
pub open spec fn within(less: Disk, more: Disk) -> bool {
    forall|entry: Seq<Seq<char>>| #[trigger]
        less.contains_key(entry) ==> more.contains_key(entry) && less[entry] == more[entry]
}

proof fn one_step_only_removes(now: Progress, step: StepView)
    ensures
        within(carried_out(now, step).disk, now.disk),
{
}

/// Steps of an uninstall only ever remove entries.
pub proof fn steps_only_remove(disk: Disk, steps: Seq<StepView>)
    ensures
        within(after(disk, steps).disk, disk),
    decreases steps.len(),
{
    if steps.len() > 0 {
        steps_only_remove(disk, steps.drop_last());
        one_step_only_removes(after(disk, steps.drop_last()), steps.last());
    }
}

/// Carrying the step out would change nothing.
pub open spec fn settled(disk: Disk, step: StepView) -> bool {
    match step {
        StepView::Remove { path } => !disk.contains_key(names::names_of(path)),
        StepView::RemoveBundle { path } => !disk.contains_key(names::names_of(path))
            || install::bundle_decision(contents_at(disk, install::info_plist(path)))
            != BundleAction::Remove,
        _ => true,
    }
}

proof fn settled_stays(less: Disk, more: Disk, step: StepView)
    requires
        within(less, more),
        settled(more, step),
    ensures
        settled(less, step),
{
    match step {
        StepView::Remove { path } => {
            assert(less.contains_key(names::names_of(path)) ==> more.contains_key(
                names::names_of(path),
            ));
        },
        StepView::RemoveBundle { path } => {
            assert(less.contains_key(names::names_of(path)) ==> more.contains_key(
                names::names_of(path),
            ));
            let info = names::names_of(install::info_plist(path));
            assert(less.contains_key(info) ==> more.contains_key(info) && less[info]
                == more[info]);
        },
        _ => {},
    }
}

proof fn carrying_out_settles(now: Progress, step: StepView)
    ensures
        settled(carried_out(now, step).disk, step),
{
    if let Some(path) = may_remove(step) {
        let dir = names::names_of(path);
        assert(dir.is_prefix_of(dir)) by {
            assert(dir.subrange(0, dir.len() as int) =~= dir);
        }
    }
}

proof fn goes_on(disk: Disk, steps: Seq<StepView>)
    requires
        forall|i: int| 0 <= i < steps.len() ==> !(#[trigger] steps[i] is Abort),
    ensures
        !after(disk, steps).aborted,
    decreases steps.len(),
{
    if steps.len() > 0 {
        let before = steps.drop_last();
        assert forall|i: int| 0 <= i < before.len() implies !(#[trigger] before[i] is Abort) by {
            assert(before[i] == steps[i]);
        }
        goes_on(disk, before);
        assert(!(steps[steps.len() - 1] is Abort));
    }
}

/// After the steps, none of them has anything left to do.
pub proof fn steps_settle(disk: Disk, steps: Seq<StepView>, i: int)
    requires
        gives_up_last(steps),
        0 <= i < steps.len(),
    ensures
        settled(after(disk, steps).disk, steps[i]),
    decreases steps.len(),
{
    let before = steps.drop_last();
    assert forall|k: int| 0 <= k < before.len() implies !(#[trigger] before[k] is Abort) by {
        assert(before[k] == steps[k]);
    }
    goes_on(disk, before);
    let now = after(disk, before);
    if i == steps.len() - 1 {
        carrying_out_settles(now, steps.last());
    } else {
        steps_settle(disk, before, i);
        one_step_only_removes(now, steps.last());
        assert(before[i] == steps[i]);
        settled_stays(carried_out(now, steps.last()).disk, now.disk, steps[i]);
    }
}

proof fn settled_steps_do_nothing(disk: Disk, steps: Seq<StepView>)
    requires
        forall|i: int| 0 <= i < steps.len() ==> settled(disk, #[trigger] steps[i]),
    ensures
        after(disk, steps).disk == disk,
        after(disk, steps).removed == Seq::<Seq<char>>::empty(),
    decreases steps.len(),
{
    if steps.len() > 0 {
        let before = steps.drop_last();
        assert forall|i: int| 0 <= i < before.len() implies settled(
            disk,
            #[trigger] before[i],
        ) by {
            assert(before[i] == steps[i]);
        }
        settled_steps_do_nothing(disk, before);
        assert(settled(disk, steps[steps.len() - 1]));
    }
}

/// The disks agree on the entry: it stands on both, alike, or on neither.
pub open spec fn agree(a: Disk, b: Disk, entry: Seq<Seq<char>>) -> bool {
    &&& a.contains_key(entry) <==> b.contains_key(entry)
    &&& a.contains_key(entry) ==> a[entry] == b[entry]
}

/// An entry that lies at or below no path that a step may remove stays.
pub proof fn other_entries_stay(disk: Disk, steps: Seq<StepView>, entry: Seq<Seq<char>>)
    requires
        forall|i: int|
            0 <= i < steps.len() ==> (may_remove(#[trigger] steps[i]) matches Some(path)
                ==> !names::at_or_below(entry, names::names_of(path))),
    ensures
        agree(after(disk, steps).disk, disk, entry),
    decreases steps.len(),
{
    if steps.len() > 0 {
        let before = steps.drop_last();
        assert forall|i: int| 0 <= i < before.len() implies (may_remove(
            #[trigger] before[i],
        ) matches Some(path) ==> !names::at_or_below(entry, names::names_of(path))) by {
            assert(before[i] == steps[i]);
        }
        other_entries_stay(disk, before, entry);
        let last = steps[steps.len() - 1];
        if let Some(path) = may_remove(last) {
            assert(!names::at_or_below(entry, names::names_of(path)));
            assert(entry.subrange(0, entry.len() as int) =~= entry);
            assert(entry != names::names_of(path));
        }
    }
}

/// Some reported path is the entry or lies above it.
pub open spec fn reported(removed: Seq<Seq<char>>, entry: Seq<Seq<char>>) -> bool {
    exists|k: int|
        0 <= k < removed.len() && names::at_or_below(
            entry,
            names::names_of(#[trigger] removed[k]),
        )
}

/// The report lists exactly what was removed: each reported path stood on the
/// disk and is gone, and each entry that is gone was reported, itself or with a
/// directory above it.
pub proof fn report_is_exact(disk: Disk, steps: Seq<StepView>)
    ensures
        forall|k: int|
            0 <= k < after(disk, steps).removed.len() ==> disk.contains_key(
                names::names_of(#[trigger] after(disk, steps).removed[k]),
            ) && !after(disk, steps).disk.contains_key(
                names::names_of(after(disk, steps).removed[k]),
            ),
        forall|entry: Seq<Seq<char>>| #[trigger]
            disk.contains_key(entry) && !after(disk, steps).disk.contains_key(entry) ==> reported(
                after(disk, steps).removed,
                entry,
            ),
    decreases steps.len(),
{
    if steps.len() > 0 {
        let before = steps.drop_last();
        report_is_exact(disk, before);
        steps_only_remove(disk, before);
        let now = after(disk, before);
        let end = after(disk, steps);
        if end != now {
            one_step_only_removes(now, steps.last());
            carrying_out_settles(now, steps.last());
            if let Some(path) = may_remove(steps.last()) {
                if end.removed != now.removed {
                    let dir = names::names_of(path);
                    assert(end.removed == now.removed.push(path));
                    assert(now.disk.contains_key(dir));
                    assert(disk.contains_key(dir));
                    assert(dir.subrange(0, dir.len() as int) =~= dir);
                    assert forall|k: int| 0 <= k < end.removed.len() implies disk.contains_key(
                        names::names_of(#[trigger] end.removed[k]),
                    ) && !end.disk.contains_key(names::names_of(end.removed[k])) by {
                        if k < now.removed.len() {
                            assert(end.removed[k] == now.removed[k]);
                        }
                    }
                    assert forall|entry: Seq<Seq<char>>| #[trigger]
                        disk.contains_key(entry) && !end.disk.contains_key(entry) implies reported(
                        end.removed,
                        entry,
                    ) by {
                        if now.disk.contains_key(entry) {
                            assert(names::at_or_below(entry, dir));
                            assert(end.removed[now.removed.len() as int] == path);
                        } else {
                            assert(reported(now.removed, entry));
                            let k = choose|k: int|
                                0 <= k < now.removed.len() && names::at_or_below(
                                    entry,
                                    names::names_of(#[trigger] now.removed[k]),
                                );
                            assert(end.removed[k] == now.removed[k]);
                        }
                    }
                }
            }
        }
    }
}

/// What is removed goes whole: a directory with everything below it, anything
/// else alone; where nothing stands, nothing is removed and nothing reported.
pub proof fn removals_are_whole(now: Progress, path: Seq<char>, entry: Seq<Seq<char>>)
    ensures
        ({
            let after = remove_at(now, path);
            let at = names::names_of(path);
            &&& kind_at(now.disk, path) == EntryKind::Missing ==> after == now
            &&& kind_at(now.disk, path) != EntryKind::Missing ==> after.removed
                == now.removed.push(path)
            &&& kind_at(now.disk, path) == EntryKind::Directory ==> (after.disk.contains_key(entry)
                <==> now.disk.contains_key(entry) && !names::at_or_below(entry, at))
            &&& kind_at(now.disk, path) == EntryKind::Symlink || kind_at(now.disk, path)
                == EntryKind::Other ==> (after.disk.contains_key(entry) <==> now.disk.contains_key(
                entry,
            ) && entry != at)
        }),
{
}

/// A bundle is removed exactly when its `Info.plist` can be read and carries our
/// identifier; without that file there is no bundle, and with another
/// identifier it is a stranger's.
pub proof fn only_our_bundle_is_removed(info: Option<Seq<u8>>)
    ensures
        install::bundle_decision(info) == BundleAction::Nothing <==> info is None,
        install::bundle_decision(info) == BundleAction::Remove <==> (info matches Some(bytes)
            && exists|i: int|
            0 <= i && i + "io.github.ibimal.kanatabar"@.len() <= bytes.len() && #[trigger] spelled_in(
                bytes,
                "io.github.ibimal.kanatabar"@,
                i,
            )),
{
    if let Some(bytes) = info {
        if install::held_in(bytes, install::BUNDLE_ID@) {
            let i = choose|i: int| install::bytes_at(bytes, install::BUNDLE_ID@, i);
            assert(spelled_in(bytes, "io.github.ibimal.kanatabar"@, i));
        }
        if exists|i: int|
            0 <= i && i + "io.github.ibimal.kanatabar"@.len() <= bytes.len() && #[trigger] spelled_in(
                bytes,
                "io.github.ibimal.kanatabar"@,
                i,
            ) {
            let i = choose|i: int|
                0 <= i && i + "io.github.ibimal.kanatabar"@.len() <= bytes.len()
                    && #[trigger] spelled_in(bytes, "io.github.ibimal.kanatabar"@, i);
            assert(install::bytes_at(bytes, install::BUNDLE_ID@, i));
        }
    }
}

/// From `i` on, the bytes are the codes of the text's characters.
pub open spec fn spelled_in(bytes: Seq<u8>, text: Seq<char>, i: int) -> bool {
    forall|k: int| 0 <= k < text.len() ==> #[trigger] bytes[i + k] as u32 == text[k] as u32
}

// ── Of an uninstall ─────────────────────────────────────────────────────────

/// The paths below the prefix that an uninstall removes whatever stands there,
/// the agent plist aside.
pub open spec fn is_ours(path: Seq<char>) -> bool {
    ||| path == install::VHIDD_PLIST_PATH@
    ||| path == install::DAEMON_PLIST_PATH@
    ||| path == install::DAEMON_BIN@
    ||| path == install::CTL_BIN@
    ||| path == install::BASH_COMPLETION_PATH@
    ||| path == install::ZSH_COMPLETION_PATH@
    ||| path == install::FISH_COMPLETION_PATH@
    ||| path == install::SOCKET@
    ||| path == install::SUPPORT_DIR@
    ||| path == install::LOGS_DIR@
    ||| path == install::UNBUNDLED_TRAY@
}

/// What an uninstall removes or may remove: a path of ours, the agent plist in
/// the user's home, or the app bundle.
proof fn what_may_be_removed(
    component: Component,
    prefix: Seq<char>,
    skip: bool,
    user: Result<TargetUser, String>,
    i: int,
) -> (path: Seq<char>)
    requires
        0 <= i < plan::uninstall_steps(component, prefix, skip, user).len(),
        may_remove(plan::uninstall_steps(component, prefix, skip, user)[i]) is Some,
    ensures
        ({
            let steps = plan::uninstall_steps(component, prefix, skip, user);
            let removed = may_remove(steps[i])->0;
            ||| steps[i] is Remove && is_ours(path) && removed == install::under_path(prefix, path)
            ||| steps[i] is Remove && user is Ok && removed == plan::agent_plist_at(
                prefix,
                user->Ok_0.home@,
            )
            ||| steps[i] is RemoveBundle && path == install::APP_BUNDLE@ && removed
                == install::under_path(prefix, path)
        }),
{
    let steps = plan::uninstall_steps(component, prefix, skip, user);
    let daemon = plan::remove_daemon_steps(prefix, skip);
    let cut: int = if component is Agent {
        0
    } else {
        daemon.len() as int
    };
    let at: int = if skip {
        0
    } else {
        2
    };
    if i < cut {
        assert(steps[i] == daemon[i]);
        let k = i - at;
        if k == 0 {
            install::VHIDD_PLIST_PATH@
        } else if k == 1 {
            install::DAEMON_PLIST_PATH@
        } else if k == 2 {
            install::DAEMON_BIN@
        } else if k == 3 {
            install::CTL_BIN@
        } else if k == 4 {
            install::BASH_COMPLETION_PATH@
        } else if k == 5 {
            install::ZSH_COMPLETION_PATH@
        } else if k == 6 {
            install::FISH_COMPLETION_PATH@
        } else if k == 7 {
            install::SOCKET@
        } else if k == 8 {
            install::SUPPORT_DIR@
        } else {
            install::LOGS_DIR@
        }
    } else {
        match user {
            Ok(user) => {
                let agent = plan::remove_agent_steps(prefix, skip, user.uid, user.home@);
                assert(steps[i] == agent[i - cut]);
                if i == steps.len() - 1 {
                    install::APP_BUNDLE@
                } else {
                    install::UNBUNDLED_TRAY@
                }
            },
            Err(message) => {
                assert(steps[i] == StepView::Abort { message: message@ });
                install::APP_BUNDLE@
            },
        }
    }
}

/// The steps of an uninstall give up, if at all, at the end: the agent's half of
/// a user who cannot be told.
proof fn uninstall_gives_up_last(
    component: Component,
    prefix: Seq<char>,
    skip: bool,
    user: Result<TargetUser, String>,
)
    ensures
        gives_up_last(plan::uninstall_steps(component, prefix, skip, user)),
{
    let steps = plan::uninstall_steps(component, prefix, skip, user);
    let daemon = plan::remove_daemon_steps(prefix, skip);
    let cut: int = if component is Agent {
        0
    } else {
        daemon.len() as int
    };
    assert forall|i: int| 0 <= i < steps.len() - 1 implies !(#[trigger] steps[i] is Abort) by {
        if i < cut {
            assert(steps[i] == daemon[i]);
        } else if let Ok(user) = user {
            assert(steps[i] == plan::remove_agent_steps(prefix, skip, user.uid, user.home@)[i
                - cut]);
        }
    }
}

/// Uninstalling removes neither Karabiner's own daemon binary nor any directory
/// above it: not for any component, and wherever the user's home is.
pub proof fn karabiner_binary_is_never_removed(
    component: Component,
    prefix: Seq<char>,
    skip: bool,
    user: Result<TargetUser, String>,
    i: int,
)
    requires
        0 <= i < plan::uninstall_steps(component, prefix, skip, user).len(),
    ensures
        may_remove(plan::uninstall_steps(component, prefix, skip, user)[i]) matches Some(path)
            ==> !names::at_or_below(
            names::names_of(install::under_path(prefix, vhidd::VHIDD_BINARY@)),
            names::names_of(path),
        ),
{
    let step = plan::uninstall_steps(component, prefix, skip, user)[i];
    if may_remove(step) is Some {
        let base = names::names_of(prefix);
        let binary = names::names_of(vhidd::VHIDD_BINARY@);
        install::names_under_the_prefix(prefix, vhidd::VHIDD_BINARY@);
        let path = what_may_be_removed(component, prefix, skip, user, i);
        places::names_differ();
        places::karabiner_path();
        places::unix_paths();
        places::daemon_plist_path();
        places::vhidd_plist_path();
        places::logs_path();
        places::support_path();
        places::bundle_paths(prefix);
        if step is Remove && user is Ok && may_remove(step) == Some(
            plan::agent_plist_at(prefix, user->Ok_0.home@),
        ) {
            let home = user->Ok_0.home@;
            let plist = names::names_of(plan::agent_plist_at(prefix, home));
            places::agent_path(prefix, home);
            let k: int = names::names_of(home).len() + 2int;
            assert(plist[base.len() + k] == install::AGENT_LABEL@ + ".plist"@);
            if k < binary.len() {
                places::karabiner_names(k);
            }
            names::not_below(base + binary, plist, base.len() + k);
        } else if path == install::SUPPORT_DIR@ {
            places::elsewhere(prefix, binary, path, 2);
        } else if path == install::LOGS_DIR@ || path == install::DAEMON_PLIST_PATH@ || path
            == install::VHIDD_PLIST_PATH@ {
            places::elsewhere(prefix, binary, path, 1);
        } else {
            places::elsewhere(prefix, binary, path, 0);
        }
    }
}

/// Installing does not write over Karabiner's own daemon binary either.
pub proof fn karabiner_binary_is_never_written(
    component: Component,
    prefix: Seq<char>,
    skip: bool,
    host: HostFacts,
    i: int,
)
    requires
        0 <= i < plan::install_steps(component, prefix, skip, host).len(),
    ensures
        plan::creates(plan::install_steps(component, prefix, skip, host)[i]) matches Some(path)
            ==> names::names_of(path) != names::names_of(
            install::under_path(prefix, vhidd::VHIDD_BINARY@),
        ),
{
    let undo = plan::uninstall_steps(component, prefix, skip, host.user);
    if let Some(path) = plan::creates(plan::install_steps(component, prefix, skip, host)[i]) {
        plan::uninstall_leaves_nothing_behind(component, prefix, skip, skip, host, i);
        let k = choose|k: int|
            0 <= k < undo.len() && plan::removes(#[trigger] undo[k]) == Some(path);
        karabiner_binary_is_never_removed(component, prefix, skip, host.user, k);
        let entry = names::names_of(path);
        assert(entry.subrange(0, entry.len() as int) =~= entry);
    }
}

/// Karabiner's daemon binary, where it stands, is the same after an uninstall.
pub proof fn karabiner_binary_survives(
    disk: Disk,
    component: Component,
    prefix: Seq<char>,
    skip: bool,
    user: Result<TargetUser, String>,
)
    ensures
        agree(
            after(disk, plan::uninstall_steps(component, prefix, skip, user)).disk,
            disk,
            names::names_of(install::under_path(prefix, vhidd::VHIDD_BINARY@)),
        ),
{
    let steps = plan::uninstall_steps(component, prefix, skip, user);
    let binary = names::names_of(install::under_path(prefix, vhidd::VHIDD_BINARY@));
    assert forall|i: int| 0 <= i < steps.len() implies (may_remove(
        #[trigger] steps[i],
    ) matches Some(path) ==> !names::at_or_below(binary, names::names_of(path))) by {
        karabiner_binary_is_never_removed(component, prefix, skip, user, i);
    }
    other_entries_stay(disk, steps, binary);
}

/// Uninstalling a second time changes nothing and reports nothing.
pub proof fn uninstalling_twice_removes_nothing_more(
    disk: Disk,
    component: Component,
    prefix: Seq<char>,
    skip: bool,
    user: Result<TargetUser, String>,
)
    ensures
        ({
            let steps = plan::uninstall_steps(component, prefix, skip, user);
            let once = after(disk, steps);
            let twice = after(once.disk, steps);
            &&& twice.disk == once.disk
            &&& twice.removed == Seq::<Seq<char>>::empty()
        }),
{
    let steps = plan::uninstall_steps(component, prefix, skip, user);
    let once = after(disk, steps);
    uninstall_gives_up_last(component, prefix, skip, user);
    assert forall|i: int| 0 <= i < steps.len() implies settled(once.disk, #[trigger] steps[i]) by {
        steps_settle(disk, steps, i);
    }
    settled_steps_do_nothing(once.disk, steps);
}

/// After an uninstall, whatever the disk was like, no path that the install of
/// the component creates is there, the log directory among them.
pub proof fn nothing_created_is_left(
    disk: Disk,
    component: Component,
    prefix: Seq<char>,
    skip_install: bool,
    skip_uninstall: bool,
    host: HostFacts,
    i: int,
)
    requires
        0 <= i < plan::install_steps(component, prefix, skip_install, host).len(),
    ensures
        plan::creates(
            plan::install_steps(component, prefix, skip_install, host)[i],
        ) matches Some(path) ==> kind_at(
            after(
                disk,
                plan::uninstall_steps(component, prefix, skip_uninstall, host.user),
            ).disk,
            path,
        ) == EntryKind::Missing,
{
    let step = plan::install_steps(component, prefix, skip_install, host)[i];
    let undo = plan::uninstall_steps(component, prefix, skip_uninstall, host.user);
    if let Some(path) = plan::creates(step) {
        plan::uninstall_leaves_nothing_behind(
            component,
            prefix,
            skip_install,
            skip_uninstall,
            host,
            i,
        );
        let k = choose|k: int|
            0 <= k < undo.len() && plan::removes(#[trigger] undo[k]) == Some(path);
        uninstall_gives_up_last(component, prefix, skip_uninstall, host.user);
        steps_settle(disk, undo, k);
    }
}

/// An app bundle whose `Info.plist` does not carry our identifier is left as it
/// is: every entry of it, but for an agent plist of a home inside the bundle.
pub proof fn foreign_bundle_stays(
    disk: Disk,
    component: Component,
    prefix: Seq<char>,
    skip: bool,
    user: Result<TargetUser, String>,
    entry: Seq<Seq<char>>,
)
    requires
        contents_at(
            disk,
            install::info_plist(install::under_path(prefix, install::APP_BUNDLE@)),
        ) matches Some(bytes) && !install::held_in(bytes, install::BUNDLE_ID@),
        names::at_or_below(
            entry,
            names::names_of(install::under_path(prefix, install::APP_BUNDLE@)),
        ),
        user matches Ok(user) ==> !names::at_or_below(
            entry,
            names::names_of(plan::agent_plist_at(prefix, user.home@)),
        ),
    ensures
        agree(
            after(disk, plan::uninstall_steps(component, prefix, skip, user)).disk,
            disk,
            entry,
        ),
{
    let steps = plan::uninstall_steps(component, prefix, skip, user);
    let bundle = install::under_path(prefix, install::APP_BUNDLE@);
    let info = names::names_of(install::info_plist(bundle));
    info_is_in_the_bundle(prefix);
    if let Ok(user) = user {
        info_is_not_below_agent_plist(prefix, user.home@);
    }
    assert forall|i: int| 0 <= i < steps.len() implies #[trigger] spares(
        steps[i],
        bundle,
        entry,
        info,
    ) by {
        if may_remove(steps[i]) is Some {
            if steps[i] is RemoveBundle {
                let path = what_may_be_removed(component, prefix, skip, user, i);
            } else {
                ours_is_outside_the_bundle(component, prefix, skip, user, i, entry);
                ours_is_outside_the_bundle(component, prefix, skip, user, i, info);
            }
        }
    }
    spared_bundle_stays(disk, steps, bundle, entry);
}

/// The step does not touch the entries, but may remove the bundle if it is ours.
spec fn spares(
    step: StepView,
    bundle: Seq<char>,
    entry: Seq<Seq<char>>,
    info: Seq<Seq<char>>,
) -> bool {
    match step {
        StepView::Remove { path } => !names::at_or_below(entry, names::names_of(path))
            && !names::at_or_below(info, names::names_of(path)),
        StepView::RemoveBundle { path } => path == bundle,
        _ => true,
    }
}

proof fn spared_bundle_stays(
    disk: Disk,
    steps: Seq<StepView>,
    bundle: Seq<char>,
    entry: Seq<Seq<char>>,
)
    requires
        contents_at(disk, install::info_plist(bundle)) matches Some(bytes) && !install::held_in(
            bytes,
            install::BUNDLE_ID@,
        ),
        forall|i: int|
            0 <= i < steps.len() ==> #[trigger] spares(
                steps[i],
                bundle,
                entry,
                names::names_of(install::info_plist(bundle)),
            ),
    ensures
        agree(after(disk, steps).disk, disk, entry),
        agree(
            after(disk, steps).disk,
            disk,
            names::names_of(install::info_plist(bundle)),
        ),
    decreases steps.len(),
{
    if steps.len() > 0 {
        let info = names::names_of(install::info_plist(bundle));
        let before = steps.drop_last();
        assert forall|i: int| 0 <= i < before.len() implies #[trigger] spares(
            before[i],
            bundle,
            entry,
            info,
        ) by {
            assert(before[i] == steps[i]);
            assert(spares(steps[i], bundle, entry, info));
        }
        spared_bundle_stays(disk, before, bundle, entry);
        assert(spares(steps[steps.len() - 1], bundle, entry, info));
        assert(entry.subrange(0, entry.len() as int) =~= entry);
        assert(info.subrange(0, info.len() as int) =~= info);
    }
}

proof fn info_is_in_the_bundle(prefix: Seq<char>)
    ensures
        names::at_or_below(
            names::names_of(install::info_plist(install::under_path(prefix, install::APP_BUNDLE@))),
            names::names_of(install::under_path(prefix, install::APP_BUNDLE@)),
        ),
{
    let bundle = install::under_path(prefix, install::APP_BUNDLE@);
    let info = names::names_of(install::info_plist(bundle));
    places::bundle_paths(prefix);
    install::names_under_the_prefix(prefix, install::APP_BUNDLE@);
    assert(info.subrange(0, names::names_of(bundle).len() as int) =~= names::names_of(bundle));
}

proof fn info_is_not_below_agent_plist(prefix: Seq<char>, home: Seq<char>)
    ensures
        !names::at_or_below(
            names::names_of(install::info_plist(install::under_path(prefix, install::APP_BUNDLE@))),
            names::names_of(plan::agent_plist_at(prefix, home)),
        ),
{
    places::names_differ();
    let base = names::names_of(prefix);
    let info = names::names_of(install::info_plist(install::under_path(prefix, install::APP_BUNDLE@)));
    let plist = names::names_of(plan::agent_plist_at(prefix, home));
    places::bundle_paths(prefix);
    places::agent_path(prefix, home);
    let h: int = names::names_of(home).len() as int;
    assert(plist[base.len() + h] == "Library"@);
    if h == 0 {
        assert(info[base.len() as int] == "Applications"@);
        names::not_below(info, plist, base.len() as int);
    } else if h == 1 {
        assert(info[base.len() as int + 1] == "KanataBar.app"@);
        names::not_below(info, plist, base.len() as int + 1);
    } else {
        names::not_below(info, plist, plist.len() - 1);
    }
}

/// What an uninstall removes whatever stands there lies outside the app bundle,
/// the agent plist aside.
proof fn ours_is_outside_the_bundle(
    component: Component,
    prefix: Seq<char>,
    skip: bool,
    user: Result<TargetUser, String>,
    i: int,
    entry: Seq<Seq<char>>,
)
    requires
        0 <= i < plan::uninstall_steps(component, prefix, skip, user).len(),
        may_remove(plan::uninstall_steps(component, prefix, skip, user)[i]) is Some,
        !(plan::uninstall_steps(component, prefix, skip, user)[i] is RemoveBundle),
        names::at_or_below(
            entry,
            names::names_of(install::under_path(prefix, install::APP_BUNDLE@)),
        ),
        user matches Ok(user) ==> !names::at_or_below(
            entry,
            names::names_of(plan::agent_plist_at(prefix, user.home@)),
        ),
    ensures
        !names::at_or_below(
            entry,
            names::names_of(
                may_remove(plan::uninstall_steps(component, prefix, skip, user)[i])->0,
            ),
        ),
{
    let removed = may_remove(plan::uninstall_steps(component, prefix, skip, user)[i])->0;
    let path = what_may_be_removed(component, prefix, skip, user, i);
    if is_ours(path) && removed == install::under_path(prefix, path) {
        let base = names::names_of(prefix);
        let bundle = names::names_of(install::under_path(prefix, install::APP_BUNDLE@));
        places::names_differ();
        places::unix_paths();
        places::daemon_plist_path();
        places::vhidd_plist_path();
        places::logs_path();
        places::support_path();
        places::bundle_paths(prefix);
        install::names_under_the_prefix(prefix, install::APP_BUNDLE@);
        install::names_under_the_prefix(prefix, path);
        assert(entry.subrange(0, bundle.len() as int)[base.len() as int] == entry[base.len() as int]);
        names::not_below(entry, names::names_of(removed), base.len() as int);
    }
}

} // verus!
