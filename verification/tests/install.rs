//! Installing and uninstalling.

use std::collections::BTreeMap;

use kanatabar::install::plan::{
    agent_plist_path, vhidd_management, HostFacts, Step,
};
use kanatabar::install::resources::{AGENT_PLIST_TEMPLATE, DAEMON_PLIST};
use kanatabar::install::{
    after_bootstrap, binary_steps, bootstrap_failure, bundle_action, bundle_left_alone,
    check_privilege, info_plist_path, install, removal_of, render_agent_plist, sibling_missing, symlink_refusal,
    target_uid, under, uninstall, user_file_steps, BinarySteps, BootstrapNext, BundleAction,
    Component, EntryKind, InstallConfig, Removal, SymlinkAt, TargetUser, TargetUserError,
    UserFileSteps, AGENT_LABEL, BUNDLED_TRAY, DAEMON_LABEL, UNBUNDLED_TRAY,
};
use kanatabar::vhidd::{VhiddManagement, VHIDD_BINARY, VHIDD_LABEL};

#[test]
fn agent_plist_substitutes_home_and_tray() {
    let rendered = render_agent_plist("/Users/alice", UNBUNDLED_TRAY);
    assert!(rendered.contains("/Users/alice/Library/Logs/KanataBar/tray.out.log"));
    assert!(rendered.contains("/Users/alice/Library/Logs/KanataBar/tray.err.log"));
    assert!(rendered.contains("<string>/usr/local/bin/kanatabar-tray</string>"));
    assert!(!rendered.contains("__HOME__"));
    assert!(!rendered.contains("__TRAY_BIN__"));
    assert!(rendered.contains(AGENT_LABEL));
}

#[test]
fn agent_plist_points_into_the_bundle_when_asked() {
    let rendered = render_agent_plist("/Users/alice", BUNDLED_TRAY);
    assert!(rendered.contains(
        "<string>/Applications/KanataBar.app/Contents/MacOS/kanatabar-tray</string>"
    ));
    assert!(!rendered.contains("__TRAY_BIN__"));
}

#[test]
fn agent_template_has_no_hardcoded_tray_path() {
    assert!(AGENT_PLIST_TEMPLATE.contains("__TRAY_BIN__"));
    assert!(!AGENT_PLIST_TEMPLATE.contains("/usr/local/bin/kanatabar-tray"));
}


#[test]
fn daemon_plist_matches_spec_paths() {
    assert!(DAEMON_PLIST.contains(DAEMON_LABEL));
    assert!(DAEMON_PLIST.contains("/usr/local/bin/kanatad"));
    assert!(DAEMON_PLIST.contains("/Library/Logs/KanataBar/kanatad.out.log"));
    assert!(DAEMON_PLIST.contains("<key>KeepAlive</key><true/>"));
}

#[test]
fn under_prefix_joins_and_identity() {
    assert_eq!(under("/", "/usr/local/bin"), "/usr/local/bin");
    assert_eq!(
        under("/tmp/root", "/usr/local/bin"),
        "/tmp/root/usr/local/bin"
    );
}

#[test]
fn component_selection() {
    assert!(Component::Both.wants_daemon());
    assert!(Component::Both.wants_agent());
    assert!(Component::Daemon.wants_daemon());
    assert!(!Component::Daemon.wants_agent());
    assert!(Component::Agent.wants_agent());
    assert!(!Component::Agent.wants_daemon());
}

#[test]
fn check_privilege_skips_when_prefix_is_not_root() {
    let cfg = InstallConfig {
        prefix: "/tmp/kanatabar-test-prefix".to_string(),
        ..InstallConfig::default()
    };
    check_privilege(&cfg, false).expect("non-default prefix bypasses the root check");
}

#[test]
fn check_privilege_requires_root_for_the_real_prefix() {
    assert!(check_privilege(&InstallConfig::default(), false).is_err());
    assert!(check_privilege(&InstallConfig::default(), true).is_ok());
}

const PREFIX: &str = "/tmp/prefix";

fn config(component: Component) -> InstallConfig {
    InstallConfig {
        prefix: PREFIX.to_string(),
        skip_launchctl: true,
        component,
    }
}

fn host() -> HostFacts {
    HostFacts {
        management: VhiddManagement::Unmanaged,
        vhidd_binary: false,
        user: Ok(TargetUser {
            uid: 501,
            gid: 20,
            home: "/Users/alice".to_string(),
        }),
        bundled: false,
    }
}

/// What stands below the prefix: each path with its mode and contents.
#[derive(Default)]
struct Disk {
    entries: BTreeMap<String, (u32, String)>,
    said: Vec<String>,
    aborted: Option<String>,
    removed: Vec<String>,
}

impl Disk {
    fn put(&mut self, path: &str, mode: u32, contents: &str) {
        self.entries
            .insert(path.to_string(), (mode, contents.to_string()));
    }

    /// Remove what stands at the path, and tell whether anything did.
    fn remove(&mut self, path: &str) -> bool {
        let below = format!("{path}/");
        let before = self.entries.len();
        self.entries
            .retain(|p, _| p != path && !p.starts_with(&below));
        self.entries.len() < before
    }

    fn remove_and_report(&mut self, path: &str) {
        if self.remove(path) {
            self.removed.push(path.to_string());
        }
    }

    fn run(&mut self, steps: &[Step]) {
        for step in steps {
            match step {
                Step::CopyBinary { name, to, mode } => {
                    self.put(to, *mode, &format!("binary {name}"))
                }
                Step::MakeDir { path, mode } => self.put(path, *mode, ""),
                Step::WriteFile {
                    path,
                    contents,
                    mode,
                } => self.put(path, *mode, contents),
                Step::WriteUserFile { path, body, mode } => self.put(path, *mode, body),
                Step::Bootout { .. } | Step::Bootstrap { .. } => {
                    panic!("launchctl is skipped")
                }
                Step::RemoveStale { path } => {
                    self.remove(path);
                }
                Step::Remove { path } => self.remove_and_report(path),
                Step::RemoveBundle { path } => {
                    let info = info_plist_path(path);
                    let plist = self.entries.get(&info).map(|e| e.1.clone());
                    match bundle_action(plist.as_ref().map(|p| p.as_bytes())) {
                        BundleAction::Nothing => {}
                        BundleAction::LeaveAlone => self.said.push(bundle_left_alone(path)),
                        BundleAction::Remove => self.remove_and_report(path),
                    }
                }
                Step::Say { message } => self.said.push(message.clone()),
                Step::Abort { message } => {
                    self.aborted = Some(message.clone());
                    return;
                }
            }
        }
    }

    fn installed(&mut self, cfg: &InstallConfig, host: &HostFacts) {
        self.run(&install(cfg, false, host).expect("no root needed"));
    }

    fn uninstalled(&mut self, cfg: &InstallConfig, host: &HostFacts) {
        self.run(&uninstall(cfg, false, &host.user).expect("no root needed"));
    }

    fn mode(&self, path: &str) -> Option<u32> {
        self.entries.get(&format!("{PREFIX}{path}")).map(|e| e.0)
    }

    fn body(&self, path: &str) -> &str {
        &self.entries[&format!("{PREFIX}{path}")].1
    }
}

#[test]
fn install_creates_exactly_the_expected_files() {
    let mut disk = Disk::default();
    disk.installed(&config(Component::Both), &host());
    let found: Vec<&str> = disk
        .entries
        .keys()
        .map(|p| p.strip_prefix("/tmp/prefix/").expect("below the prefix"))
        .collect();
    assert_eq!(
        found,
        [
            "Library/LaunchDaemons/io.github.ibimal.kanatabar.daemon.plist",
            "Library/Logs/KanataBar",
            "Users/alice/Library/LaunchAgents/io.github.ibimal.kanatabar.agent.plist",
            "usr/local/bin/kanatabar-tray",
            "usr/local/bin/kanatactl",
            "usr/local/bin/kanatad",
            // Shell completions ride with the CLI binary.
            "usr/local/etc/bash_completion.d/kanatactl",
            "usr/local/share/fish/vendor_completions.d/kanatactl.fish",
            "usr/local/share/zsh/site-functions/_kanatactl",
        ]
    );
    assert_eq!(disk.mode("/usr/local/bin/kanatad"), Some(0o755));
    assert_eq!(disk.body("/usr/local/bin/kanatad"), "binary kanatad");
    assert_eq!(
        agent_plist_path(PREFIX, "/Users/alice"),
        format!("{PREFIX}/Users/alice/Library/LaunchAgents/{AGENT_LABEL}.plist")
    );

    disk.uninstalled(&config(Component::Both), &host());
    assert!(disk.entries.is_empty(), "left behind: {:?}", disk.entries);
}

#[test]
fn vhidd_plist_installed_when_daemon_binary_present_and_unmanaged() {
    let mut disk = Disk::default();
    let binary = format!("{PREFIX}{VHIDD_BINARY}");
    disk.put(&binary, 0o755, "#!/bin/sh\n");
    let facts = HostFacts {
        vhidd_binary: true,
        ..host()
    };
    disk.installed(&config(Component::Both), &facts);
    let plist = format!("/Library/LaunchDaemons/{VHIDD_LABEL}.plist");
    assert_eq!(disk.mode(&plist), Some(0o644), "vhidd plist must be 0644");
    let body = disk.body(&plist);
    assert!(body.contains(VHIDD_LABEL));
    assert!(body.contains("Karabiner-VirtualHIDDevice-Daemon"));
    assert!(body.contains("<key>KeepAlive</key><true/>"));
    assert!(body.contains("<key>ProcessType</key><string>Interactive</string>"));

    disk.uninstalled(&config(Component::Both), &facts);
    assert_eq!(disk.mode(&plist), None, "uninstall must remove our vhidd plist");
    assert!(
        disk.entries.contains_key(&binary),
        "uninstall must never touch Karabiner's own daemon binary"
    );
}

#[test]
fn vhidd_plist_skipped_without_daemon_binary() {
    let mut disk = Disk::default();
    disk.installed(&config(Component::Both), &host());
    let plist = format!("/Library/LaunchDaemons/{VHIDD_LABEL}.plist");
    assert_eq!(disk.mode(&plist), None, "vhidd plist must be skipped");
    assert!(
        disk.said
            .iter()
            .any(|m| m.contains("Karabiner driver not installed")),
        "install should say why the vhidd job was skipped"
    );
    disk.uninstalled(&config(Component::Both), &host());
    assert!(disk.entries.is_empty());
}

/// Plant a fake app bundle with the given identifier in its Info.plist.
fn plant_app_bundle(disk: &mut Disk, bundle_id: &str) {
    let app = format!("{PREFIX}/Applications/KanataBar.app");
    disk.put(&format!("{app}/Contents/MacOS/kanatabar-tray"), 0o755, "");
    disk.put(
        &format!("{app}/Contents/Info.plist"),
        0o644,
        &format!(
            "<plist><dict><key>CFBundleIdentifier</key><string>{bundle_id}</string></dict></plist>"
        ),
    );
}

#[test]
fn install_prefers_the_bundled_tray_when_the_app_is_present() {
    let mut disk = Disk::default();
    plant_app_bundle(&mut disk, "io.github.ibimal.kanatabar");
    let facts = HostFacts {
        bundled: true,
        ..host()
    };
    disk.installed(&config(Component::Both), &facts);
    assert_eq!(
        disk.mode("/usr/local/bin/kanatabar-tray"),
        None,
        "bundled install must not also copy a bare tray binary"
    );
    // A stale bare tray from an earlier tarball install must be removed when
    // the install switches to the bundle.
    disk.put(&format!("{PREFIX}/usr/local/bin/kanatabar-tray"), 0o755, "stale");
    disk.installed(&config(Component::Both), &facts);
    assert_eq!(
        disk.mode("/usr/local/bin/kanatabar-tray"),
        None,
        "stale bare tray must be removed"
    );
    let body = disk.body("/Users/alice/Library/LaunchAgents/io.github.ibimal.kanatabar.agent.plist");
    assert!(
        body.contains("<string>/Applications/KanataBar.app/Contents/MacOS/kanatabar-tray</string>"),
        "agent must run the bundled tray: {body}"
    );
    disk.uninstalled(&config(Component::Both), &facts);
    assert!(disk.entries.is_empty(), "left behind: {:?}", disk.entries);
}

#[test]
fn uninstall_leaves_a_foreign_app_bundle_alone() {
    let mut disk = Disk::default();
    plant_app_bundle(&mut disk, "com.example.impostor");
    disk.uninstalled(&config(Component::Both), &host());
    assert_eq!(disk.entries.len(), 2, "foreign bundle must survive uninstall");
    assert!(
        disk.said.iter().any(|m| m.contains("leaving it alone")),
        "uninstall should say why the bundle was kept"
    );
}

/// An uninstall takes away what the install brought and lists it; Karabiner's own
/// binary and a stranger's app stay, and a second uninstall finds nothing.
#[test]
fn uninstalling_twice_removes_nothing_more() {
    let mut disk = Disk::default();
    let binary = format!("{PREFIX}{VHIDD_BINARY}");
    disk.put(&binary, 0o755, "karabiner");
    plant_app_bundle(&mut disk, "com.example.impostor");
    let before = disk.entries.clone();
    let facts = HostFacts {
        vhidd_binary: true,
        ..host()
    };
    disk.installed(&config(Component::Both), &facts);
    let created: Vec<String> = disk
        .entries
        .keys()
        .filter(|p| !before.contains_key(*p))
        .cloned()
        .collect();
    assert!(created.contains(&format!("{PREFIX}/Library/Logs/KanataBar")));
    disk.uninstalled(&config(Component::Both), &facts);
    assert_eq!(disk.entries, before);
    let mut removed = disk.removed.clone();
    removed.sort();
    assert_eq!(removed, created);
    disk.removed.clear();
    disk.uninstalled(&config(Component::Both), &facts);
    assert_eq!(disk.entries, before);
    assert!(disk.removed.is_empty(), "removed again: {:?}", disk.removed);
}

/// Wherever the user's home is, even next to Karabiner, its binary stays.
#[test]
fn a_home_next_to_karabiner_is_no_danger_to_it() {
    let mut disk = Disk::default();
    let binary = format!("{PREFIX}{VHIDD_BINARY}");
    disk.put(&binary, 0o755, "karabiner");
    let facts = HostFacts {
        user: Ok(TargetUser {
            uid: 501,
            gid: 20,
            home: "/Library/Application Support/org.pqrs".to_string(),
        }),
        ..host()
    };
    disk.installed(&config(Component::Both), &facts);
    disk.uninstalled(&config(Component::Both), &facts);
    assert_eq!(disk.entries.keys().collect::<Vec<_>>(), vec![&binary]);
}

#[test]
fn the_bundle_tells_what_it_is() {
    assert_eq!(
        info_plist_path("/Applications/KanataBar.app"),
        "/Applications/KanataBar.app/Contents/Info.plist"
    );
}

#[test]
fn uninstall_removes_preexisting_config_and_state() {
    let mut disk = Disk::default();
    let support = format!("{PREFIX}/Library/Application Support/KanataBar");
    for file in ["config.toml", "state.json", "backups/last.kbd"] {
        disk.put(&format!("{support}/{file}"), 0o644, "x");
    }
    disk.put(&format!("{PREFIX}/var/run/kanatabar.sock"), 0o660, "");
    disk.uninstalled(&config(Component::Daemon), &host());
    assert!(disk.entries.is_empty(), "left behind: {:?}", disk.entries);
}

#[test]
fn daemon_only_skips_the_agent() {
    let mut disk = Disk::default();
    disk.installed(&config(Component::Daemon), &host());
    assert_eq!(disk.mode("/usr/local/bin/kanatabar-tray"), None);
    assert!(disk
        .entries
        .keys()
        .all(|p| !p.ends_with("io.github.ibimal.kanatabar.agent.plist")));
}

/// A user who cannot be told stops the agent's half only.
#[test]
fn an_unknown_user_stops_after_the_daemon() {
    let mut disk = Disk::default();
    let facts = HostFacts {
        user: Err("no SUDO_UID".to_string()),
        ..host()
    };
    disk.installed(&config(Component::Both), &facts);
    assert_eq!(disk.aborted.as_deref(), Some("no SUDO_UID"));
    assert_eq!(disk.mode("/usr/local/bin/kanatad"), Some(0o755));
    assert_eq!(disk.mode("/usr/local/bin/kanatabar-tray"), None);
}

#[test]
fn jobs_are_booted_out_before_they_are_loaded() {
    let cfg = InstallConfig::default();
    assert_eq!(cfg.prefix, "/");
    let facts = HostFacts {
        vhidd_binary: true,
        ..host()
    };
    assert!(install(&cfg, false, &facts).is_err());
    let steps = install(&cfg, true, &facts).expect("root");
    let jobs: Vec<String> = steps
        .iter()
        .filter_map(|s| match s {
            Step::Bootout { target } => Some(format!("out {target}")),
            Step::Bootstrap { domain, plist } => Some(format!("in {domain} {plist}")),
            _ => None,
        })
        .collect();
    assert_eq!(
        jobs,
        [
            format!("out system/{DAEMON_LABEL}"),
            format!("in system /Library/LaunchDaemons/{DAEMON_LABEL}.plist"),
            format!("out system/{VHIDD_LABEL}"),
            format!("in system /Library/LaunchDaemons/{VHIDD_LABEL}.plist"),
            format!("out gui/501/{AGENT_LABEL}"),
            format!("in gui/501 /Users/alice/Library/LaunchAgents/{AGENT_LABEL}.plist"),
        ]
    );
    let created: Vec<&str> = steps.iter().filter_map(Step::created).collect();
    assert_eq!(created[0], "/usr/local/bin/kanatad");
    assert_eq!(created.len(), 10);
    assert!(uninstall(&cfg, false, &facts.user).is_err());
}

#[test]
fn management_is_looked_up_only_with_launchctl() {
    let listing = "PID\tStatus\tLabel\n812\t0\torg.pqrs.karabiner-daemon\n";
    let mut cfg = config(Component::Both);
    assert_eq!(vhidd_management(&cfg, Some(listing)), VhiddManagement::Unmanaged);
    cfg.skip_launchctl = false;
    assert_eq!(
        vhidd_management(&cfg, Some(listing)),
        VhiddManagement::Other("org.pqrs.karabiner-daemon".to_string())
    );
    assert_eq!(vhidd_management(&cfg, None), VhiddManagement::Unmanaged);
    let managed = HostFacts {
        management: VhiddManagement::Other("org.pqrs.karabiner-daemon".to_string()),
        vhidd_binary: true,
        ..host()
    };
    let mut disk = Disk::default();
    disk.installed(&config(Component::Daemon), &managed);
    assert_eq!(
        disk.said,
        ["VHID daemon already managed by `org.pqrs.karabiner-daemon`; leaving it alone"]
    );
}

/// A binary that is its own source is neither unlinked nor copied.
#[test]
fn a_self_copy_changes_mode_and_owner_only() {
    assert_eq!(
        binary_steps(true, EntryKind::Other, "/"),
        BinarySteps {
            unlink: false,
            copy: false,
            chown_root: true
        }
    );
    assert_eq!(
        binary_steps(false, EntryKind::Symlink, PREFIX),
        BinarySteps {
            unlink: true,
            copy: true,
            chown_root: false
        }
    );
    assert!(!binary_steps(false, EntryKind::Missing, PREFIX).unlink);
}

#[test]
fn symlinks_in_the_users_home_are_refused() {
    assert_eq!(
        user_file_steps(EntryKind::Symlink, EntryKind::Symlink, "/"),
        Err(SymlinkAt::Parent)
    );
    assert_eq!(
        user_file_steps(EntryKind::Directory, EntryKind::Symlink, "/"),
        Err(SymlinkAt::File)
    );
    assert_eq!(
        user_file_steps(EntryKind::Missing, EntryKind::Missing, "/"),
        Ok(UserFileSteps {
            create_parent: true,
            chown_parent: true,
            remove_old: false,
            chown_file: true,
        })
    );
    assert_eq!(
        user_file_steps(EntryKind::Directory, EntryKind::Other, PREFIX),
        Ok(UserFileSteps {
            create_parent: false,
            chown_parent: false,
            remove_old: true,
            chown_file: false,
        })
    );
    assert_eq!(
        symlink_refusal("/x"),
        "/x is a symlink; refusing to write through it"
    );
}

#[test]
fn paths_are_removed_by_what_they_are() {
    assert_eq!(removal_of(EntryKind::Missing), Removal::Nothing);
    assert_eq!(removal_of(EntryKind::Directory), Removal::Tree);
    assert_eq!(removal_of(EntryKind::Symlink), Removal::File);
    assert_eq!(removal_of(EntryKind::Other), Removal::File);
}

#[test]
fn the_target_user_is_sudo_or_the_console() {
    assert_eq!(target_uid(Some("501"), Some(7)), Ok(501));
    assert_eq!(target_uid(Some("+501"), None), Ok(501));
    assert_eq!(target_uid(Some("alice"), Some(7)), Err(TargetUserError::BadSudoUid));
    assert_eq!(target_uid(Some("4294967296"), None), Err(TargetUserError::BadSudoUid));
    assert_eq!(target_uid(None, Some(7)), Ok(7));
    assert_eq!(target_uid(None, None), Err(TargetUserError::NoConsole));
    assert!(TargetUserError::NoConsole.describe().contains("run via sudo"));
}

#[test]
fn a_bootstrap_is_retried_briefly() {
    assert_eq!(after_bootstrap(1, true), BootstrapNext::Done);
    assert_eq!(
        after_bootstrap(1, false),
        BootstrapNext::Retry {
            attempt: 2,
            delay_ms: 500
        }
    );
    assert_eq!(after_bootstrap(10, false), BootstrapNext::Failed);
    assert_eq!(
        bootstrap_failure("system", "/a.plist"),
        "launchctl bootstrap system /a.plist still failing after 10 attempts"
    );
    assert_eq!(
        sibling_missing("kanatad", "/bin/kanatactl"),
        "kanatad not found next to /bin/kanatactl — build the workspace first (cargo build \
         --workspace)"
    );
}

#[test]
fn the_root_prefix_is_recognised_however_written() {
    assert_eq!(under("//", "/usr"), "/usr");
    assert_eq!(under("/./", "/usr"), "/usr");
    assert_eq!(under("root", "/usr/bin/"), "root/usr/bin");
    assert_eq!(under("/tmp/root/", "/usr"), "/tmp/root/usr");
}
