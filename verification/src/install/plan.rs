//! The steps of an install and an uninstall, as data: what is copied, written,
//! loaded and removed, and in which order.

use vstd::prelude::*;

use crate::install::{
    self, agent_plist, agent_target, check_privilege, render_agent_plist, resources, system_job,
    under, user_domain, Component, InstallConfig, Paths, TargetUser,
};
use crate::vhidd::{self, VhiddManagement};

verus! {

broadcast use vstd::string::group_string_axioms;

/// One step.
#[derive(Debug, Clone, PartialEq, Eq)]
pub enum Step {
    /// Copy the binary of that name, found next to the running `kanatactl`, and
    /// set its mode.
    CopyBinary {
        name: &'static str,
        to: String,
        mode: u32,
    },
    /// Create a directory, with its parents, and set its mode.
    MakeDir {
        path: String,
        mode: u32,
    },
    /// Write a file, with its parent directories, and set its mode.
    WriteFile {
        path: String,
        contents: &'static str,
        mode: u32,
    },
    /// Write a file into the user's home and set its mode.
    WriteUserFile {
        path: String,
        body: String,
        mode: u32,
    },
    /// Unload a job; that it is not loaded is no fault.
    Bootout {
        target: String,
    },
    /// Load a job.
    Bootstrap {
        domain: String,
        plist: String,
    },
    /// Remove a file that an earlier install of another kind left.
    RemoveStale {
        path: String,
    },
    /// Remove what stands there, if anything does.
    Remove {
        path: String,
    },
    /// Remove the app bundle, if it is ours.
    RemoveBundle {
        path: String,
    },
    /// Tell the user.
    Say {
        message: String,
    },
    /// Stop here and report the error; what was done so far stays.
    Abort {
        message: String,
    },
}

/// What a [`Step`] says.
pub enum StepView {
    CopyBinary { name: Seq<char>, to: Seq<char>, mode: u32 },
    MakeDir { path: Seq<char>, mode: u32 },
    WriteFile { path: Seq<char>, contents: Seq<char>, mode: u32 },
    WriteUserFile { path: Seq<char>, body: Seq<char>, mode: u32 },
    Bootout { target: Seq<char> },
    Bootstrap { domain: Seq<char>, plist: Seq<char> },
    RemoveStale { path: Seq<char> },
    Remove { path: Seq<char> },
    RemoveBundle { path: Seq<char> },
    Say { message: Seq<char> },
    Abort { message: Seq<char> },
}

impl DeepView for Step {
    type V = StepView;

    open spec fn deep_view(&self) -> StepView {
        match *self {
            Step::CopyBinary { name, to, mode } => StepView::CopyBinary {
                name: name@,
                to: to@,
                mode,
            },
            Step::MakeDir { path, mode } => StepView::MakeDir { path: path@, mode },
            Step::WriteFile { path, contents, mode } => StepView::WriteFile {
                path: path@,
                contents: contents@,
                mode,
            },
            Step::WriteUserFile { path, body, mode } => StepView::WriteUserFile {
                path: path@,
                body: body@,
                mode,
            },
            Step::Bootout { target } => StepView::Bootout { target: target@ },
            Step::Bootstrap { domain, plist } => StepView::Bootstrap {
                domain: domain@,
                plist: plist@,
            },
            Step::RemoveStale { path } => StepView::RemoveStale { path: path@ },
            Step::Remove { path } => StepView::Remove { path: path@ },
            Step::RemoveBundle { path } => StepView::RemoveBundle { path: path@ },
            Step::Say { message } => StepView::Say { message: message@ },
            Step::Abort { message } => StepView::Abort { message: message@ },
        }
    }
}

/// Report of exactly what an install touched, for the uninstall audit.
#[derive(Debug, Clone, PartialEq, Eq)]
pub struct InstallReport {
    pub created: Vec<String>,
}

/// Report of exactly what an uninstall removed.
#[derive(Debug, Clone, PartialEq, Eq)]
pub struct UninstallReport {
    pub removed: Vec<String>,
}

impl Default for InstallReport {
    fn default() -> (r: Self)
        ensures
            r.created@.len() == 0,
    {
        InstallReport { created: Vec::new() }
    }
}

impl Default for UninstallReport {
    fn default() -> (r: Self)
        ensures
            r.removed@.len() == 0,
    {
        UninstallReport { removed: Vec::new() }
    }
}

/// The path that a step creates.
pub open spec fn creates(step: StepView) -> Option<Seq<char>> {
    match step {
        StepView::CopyBinary { name: _, to, mode: _ } => Some(to),
        StepView::MakeDir { path, mode: _ } => Some(path),
        StepView::WriteFile { path, contents: _, mode: _ } => Some(path),
        StepView::WriteUserFile { path, body: _, mode: _ } => Some(path),
        _ => None,
    }
}

/// The path that a step removes, whatever stands there.
pub open spec fn removes(step: StepView) -> Option<Seq<char>> {
    match step {
        StepView::Remove { path } => Some(path),
        _ => None,
    }
}

impl Step {
    /// The path that carrying out this step creates, for the report.
    pub fn created(&self) -> (r: Option<&str>)
        ensures
            match r {
                Some(path) => creates(self.deep_view()) == Some(path@),
                None => creates(self.deep_view()) is None,
            },
    {
        match self {
            Step::CopyBinary { to, .. } => Some(to.as_str()),
            Step::MakeDir { path, .. } => Some(path.as_str()),
            Step::WriteFile { path, .. } => Some(path.as_str()),
            Step::WriteUserFile { path, .. } => Some(path.as_str()),
            _ => None,
        }
    }
}

// ── Installing ──────────────────────────────────────────────────────────────

/// The steps that load a job anew: the reinstall/upgrade path needs the bootout,
/// because a bootstrap fails while a previous install's job is loaded.
pub open spec fn reload_steps(
    skip: bool,
    target: Seq<char>,
    domain: Seq<char>,
    plist: Seq<char>,
) -> Seq<StepView> {
    if skip {
        Seq::empty()
    } else {
        seq![StepView::Bootout { target }, StepView::Bootstrap { domain, plist }]
    }
}

/// The steps that install the daemon.
pub open spec fn daemon_steps(prefix: Seq<char>, skip: bool) -> Seq<StepView> {
    let at = |path: Seq<char>| install::under_path(prefix, path);
    seq![
        StepView::CopyBinary { name: "kanatad"@, to: at(install::DAEMON_BIN@), mode: 0o755 },
        StepView::CopyBinary { name: "kanatactl"@, to: at(install::CTL_BIN@), mode: 0o755 },
        StepView::WriteFile {
            path: at(install::BASH_COMPLETION_PATH@),
            contents: resources::BASH_COMPLETION@,
            mode: 0o644,
        },
        StepView::WriteFile {
            path: at(install::ZSH_COMPLETION_PATH@),
            contents: resources::ZSH_COMPLETION@,
            mode: 0o644,
        },
        StepView::WriteFile {
            path: at(install::FISH_COMPLETION_PATH@),
            contents: resources::FISH_COMPLETION@,
            mode: 0o644,
        },
        StepView::MakeDir { path: at(install::LOGS_DIR@), mode: 0o755 },
        StepView::WriteFile {
            path: at(install::DAEMON_PLIST_PATH@),
            contents: resources::DAEMON_PLIST@,
            mode: 0o644,
        },
    ] + reload_steps(
        skip,
        install::system_target(install::DAEMON_LABEL@),
        "system"@,
        at(install::DAEMON_PLIST_PATH@),
    )
}

/// The steps that install the daemon: binaries and completions, the log
/// directory, the plist, then the job.
pub fn daemon_plan(cfg: &InstallConfig) -> (r: Vec<Step>)
    ensures
        r.deep_view() == daemon_steps(cfg.prefix@, cfg.skip_launchctl),
{
    let p = Paths::new(cfg.prefix.as_str());
    let plist = p.daemon_plist.clone();
    let mut r = vec![
        Step::CopyBinary { name: "kanatad", to: p.daemon_bin, mode: 0o755 },
        Step::CopyBinary { name: "kanatactl", to: p.ctl_bin, mode: 0o755 },
        Step::WriteFile {
            path: p.bash_completion,
            contents: resources::BASH_COMPLETION,
            mode: 0o644,
        },
        Step::WriteFile {
            path: p.zsh_completion,
            contents: resources::ZSH_COMPLETION,
            mode: 0o644,
        },
        Step::WriteFile {
            path: p.fish_completion,
            contents: resources::FISH_COMPLETION,
            mode: 0o644,
        },
        Step::MakeDir { path: p.logs_dir, mode: 0o755 },
        Step::WriteFile { path: p.daemon_plist, contents: resources::DAEMON_PLIST, mode: 0o644 },
    ];
    if !cfg.skip_launchctl {
        r.push(Step::Bootout { target: system_job(install::DAEMON_LABEL) });
        r.push(Step::Bootstrap { domain: "system".to_owned(), plist });
    }
    assert(r.deep_view() =~= daemon_steps(cfg.prefix@, cfg.skip_launchctl));
    r
}

/// What is said when the driver's daemon binary is missing.
pub const DRIVER_MISSING: &'static str =
    "Karabiner driver not installed (no VHID daemon binary); run the Setup Wizard, then `sudo kanatactl install` again";

/// The steps that register our job for the Karabiner VHID daemon.
pub open spec fn vhidd_steps(
    prefix: Seq<char>,
    skip: bool,
    management: VhiddManagement,
    binary_present: bool,
) -> Seq<StepView> {
    let plist = install::under_path(prefix, install::VHIDD_PLIST_PATH@);
    match management {
        VhiddManagement::Other(label) => seq![
            StepView::Say {
                message: "VHID daemon already managed by `"@ + label@ + "`; leaving it alone"@,
            },
        ],
        _ => if !binary_present {
            seq![StepView::Say { message: DRIVER_MISSING@ }]
        } else {
            seq![
                StepView::WriteFile {
                    path: plist,
                    contents: resources::VHIDD_PLIST@,
                    mode: 0o644,
                },
            ] + reload_steps(
                skip,
                install::system_target(vhidd::VHIDD_LABEL@),
                "system"@,
                plist,
            )
        },
    }
}

/// The driver pkg registers no LaunchDaemon for its VirtualHIDDevice daemon, so
/// without help kanata dies on every reboot. Register ours, but only when the
/// daemon binary exists (driver installed) and nothing else supervises it
/// (Karabiner-Elements, a user plist): **never run a second instance**.
pub fn vhidd_plan(
    cfg: &InstallConfig,
    management: &VhiddManagement,
    binary_present: bool,
) -> (r: Vec<Step>)
    ensures
        r.deep_view() == vhidd_steps(cfg.prefix@, cfg.skip_launchctl, *management, binary_present),
{
    let p = Paths::new(cfg.prefix.as_str());
    let mut r: Vec<Step> = Vec::new();
    if !vhidd::should_install(management, binary_present) {
        match management {
            VhiddManagement::Other(label) => {
                let mut message = "VHID daemon already managed by `".to_owned();
                message.append(label.as_str());
                message.append("`; leaving it alone");
                r.push(Step::Say { message });
            },
            _ => {
                r.push(Step::Say { message: DRIVER_MISSING.to_owned() });
            },
        }
    } else {
        let plist = p.vhidd_plist.clone();
        r.push(
            Step::WriteFile { path: p.vhidd_plist, contents: resources::VHIDD_PLIST, mode: 0o644 },
        );
        if !cfg.skip_launchctl {
            // Refresh case (label already ours): bootout first, so that the
            // bootstrap doesn't fail with "service already loaded".
            r.push(Step::Bootout { target: system_job(vhidd::VHIDD_LABEL) });
            r.push(Step::Bootstrap { domain: "system".to_owned(), plist });
        }
    }
    assert(r.deep_view() =~= vhidd_steps(
        cfg.prefix@,
        cfg.skip_launchctl,
        *management,
        binary_present,
    ));
    r
}

/// The agent plist's path below the prefix.
pub open spec fn agent_plist_at(prefix: Seq<char>, home: Seq<char>) -> Seq<char> {
    install::under_path(prefix, install::agent_plist_of(home))
}

/// The agent plist's path below the prefix.
pub fn agent_plist_path(prefix: &str, home: &str) -> (r: String)
    ensures
        r@ == agent_plist_at(prefix@, home@),
{
    under(prefix, agent_plist(home).as_str())
}

/// The steps that install the agent.
pub open spec fn agent_steps(
    prefix: Seq<char>,
    skip: bool,
    uid: u32,
    home: Seq<char>,
    bundled: bool,
) -> Seq<StepView> {
    let tray = install::under_path(prefix, install::UNBUNDLED_TRAY@);
    let plist = agent_plist_at(prefix, home);
    let first = if bundled {
        StepView::RemoveStale { path: tray }
    } else {
        StepView::CopyBinary { name: "kanatabar-tray"@, to: tray, mode: 0o755 }
    };
    let program = if bundled {
        install::BUNDLED_TRAY@
    } else {
        install::UNBUNDLED_TRAY@
    };
    seq![
        first,
        StepView::WriteUserFile {
            path: plist,
            body: install::agent_plist_text(home, program),
            mode: 0o644,
        },
    ] + reload_steps(skip, install::agent_target_of(uid), install::gui_domain(uid), plist)
}

/// The steps that install the agent. Pkg installs place the tray inside the app
/// bundle and the agent runs it from there (`bundled`); a bare tray left by an
/// earlier tarball install would then sit at `/usr/local/bin` forever, stale, so
/// it is removed. Tarball installs have no bundle, so the bare binary is copied.
pub fn agent_plan(cfg: &InstallConfig, user: &TargetUser, bundled: bool) -> (r: Vec<Step>)
    ensures
        r.deep_view() == agent_steps(
            cfg.prefix@,
            cfg.skip_launchctl,
            user.uid,
            user.home@,
            bundled,
        ),
{
    let p = Paths::new(cfg.prefix.as_str());
    let plist = agent_plist_path(cfg.prefix.as_str(), user.home.as_str());
    let mut r: Vec<Step> = Vec::new();
    let program = if bundled {
        r.push(Step::RemoveStale { path: p.tray_bin });
        install::BUNDLED_TRAY
    } else {
        r.push(Step::CopyBinary { name: "kanatabar-tray", to: p.tray_bin, mode: 0o755 });
        install::UNBUNDLED_TRAY
    };
    r.push(
        Step::WriteUserFile {
            path: plist.clone(),
            body: render_agent_plist(user.home.as_str(), program),
            mode: 0o644,
        },
    );
    if !cfg.skip_launchctl {
        r.push(Step::Bootout { target: agent_target(user.uid) });
        r.push(Step::Bootstrap { domain: user_domain(user.uid), plist });
    }
    assert(r.deep_view() =~= agent_steps(
        cfg.prefix@,
        cfg.skip_launchctl,
        user.uid,
        user.home@,
        bundled,
    ));
    r
}

// ── Uninstalling ────────────────────────────────────────────────────────────

/// The steps that uninstall the daemon.
pub open spec fn remove_daemon_steps(prefix: Seq<char>, skip: bool) -> Seq<StepView> {
    let at = |path: Seq<char>| install::under_path(prefix, path);
    let unload = if skip {
        Seq::empty()
    } else {
        seq![
            StepView::Bootout { target: install::system_target(install::DAEMON_LABEL@) },
            StepView::Bootout { target: install::system_target(vhidd::VHIDD_LABEL@) },
        ]
    };
    unload + seq![
        StepView::Remove { path: at(install::VHIDD_PLIST_PATH@) },
        StepView::Remove { path: at(install::DAEMON_PLIST_PATH@) },
        StepView::Remove { path: at(install::DAEMON_BIN@) },
        StepView::Remove { path: at(install::CTL_BIN@) },
        StepView::Remove { path: at(install::BASH_COMPLETION_PATH@) },
        StepView::Remove { path: at(install::ZSH_COMPLETION_PATH@) },
        StepView::Remove { path: at(install::FISH_COMPLETION_PATH@) },
        StepView::Remove { path: at(install::SOCKET@) },
        StepView::Remove { path: at(install::SUPPORT_DIR@) },
        StepView::Remove { path: at(install::LOGS_DIR@) },
    ]
}

/// The steps that uninstall the daemon: boot our jobs out (best-effort: bootout
/// fails if the job isn't loaded, which is fine), ours only, then remove every
/// path that the install could have created and the daemon's own state.
pub fn remove_daemon_plan(cfg: &InstallConfig) -> (r: Vec<Step>)
    ensures
        r.deep_view() == remove_daemon_steps(cfg.prefix@, cfg.skip_launchctl),
{
    let p = Paths::new(cfg.prefix.as_str());
    let mut r: Vec<Step> = Vec::new();
    if !cfg.skip_launchctl {
        r.push(Step::Bootout { target: system_job(install::DAEMON_LABEL) });
        r.push(Step::Bootout { target: system_job(vhidd::VHIDD_LABEL) });
    }
    r.push(Step::Remove { path: p.vhidd_plist });
    r.push(Step::Remove { path: p.daemon_plist });
    r.push(Step::Remove { path: p.daemon_bin });
    r.push(Step::Remove { path: p.ctl_bin });
    r.push(Step::Remove { path: p.bash_completion });
    r.push(Step::Remove { path: p.zsh_completion });
    r.push(Step::Remove { path: p.fish_completion });
    r.push(Step::Remove { path: p.socket });
    r.push(Step::Remove { path: p.support_dir });
    r.push(Step::Remove { path: p.logs_dir });
    assert(r.deep_view() =~= remove_daemon_steps(cfg.prefix@, cfg.skip_launchctl));
    r
}

/// The steps that uninstall the agent.
pub open spec fn remove_agent_steps(
    prefix: Seq<char>,
    skip: bool,
    uid: u32,
    home: Seq<char>,
) -> Seq<StepView> {
    let unload = if skip {
        Seq::empty()
    } else {
        seq![StepView::Bootout { target: install::agent_target_of(uid) }]
    };
    unload + seq![
        StepView::Remove { path: agent_plist_at(prefix, home) },
        StepView::Remove { path: install::under_path(prefix, install::UNBUNDLED_TRAY@) },
        StepView::RemoveBundle { path: install::under_path(prefix, install::APP_BUNDLE@) },
    ]
}

/// The steps that uninstall the agent.
pub fn remove_agent_plan(cfg: &InstallConfig, user: &TargetUser) -> (r: Vec<Step>)
    ensures
        r.deep_view() == remove_agent_steps(
            cfg.prefix@,
            cfg.skip_launchctl,
            user.uid,
            user.home@,
        ),
{
    let p = Paths::new(cfg.prefix.as_str());
    let mut r: Vec<Step> = Vec::new();
    if !cfg.skip_launchctl {
        r.push(Step::Bootout { target: agent_target(user.uid) });
    }
    r.push(
        Step::Remove { path: agent_plist_path(cfg.prefix.as_str(), user.home.as_str()) },
    );
    r.push(Step::Remove { path: p.tray_bin });
    r.push(Step::RemoveBundle { path: p.app_bundle });
    assert(r.deep_view() =~= remove_agent_steps(
        cfg.prefix@,
        cfg.skip_launchctl,
        user.uid,
        user.home@,
    ));
    r
}

// ── The whole run ───────────────────────────────────────────────────────────

/// What an install finds on the machine.
#[derive(Debug, PartialEq, Eq)]
pub struct HostFacts {
    /// Who manages the Karabiner VHID daemon.
    pub management: VhiddManagement,
    /// The driver's VHID daemon binary exists.
    pub vhidd_binary: bool,
    /// The user to install the agent for, or why it cannot be told.
    pub user: Result<TargetUser, String>,
    /// The app bundle carries the tray.
    pub bundled: bool,
}

/// The system's launchd labels, as far as the installer looks: none without
/// `launchctl`, or where it could not be run.
pub open spec fn seen_labels(skip: bool, listing: Option<Seq<char>>) -> Seq<Seq<char>> {
    match listing {
        Some(output) => if skip {
            Seq::empty()
        } else {
            vhidd::labels_in(output)
        },
        None => Seq::empty(),
    }
}

/// Who manages the Karabiner VHID daemon, by what `launchctl list` printed.
pub fn vhidd_management(cfg: &InstallConfig, listing: Option<&str>) -> (r: VhiddManagement)
    ensures
        vhidd::management_is(
            seen_labels(
                cfg.skip_launchctl,
                match listing {
                    Some(output) => Some(output@),
                    None => None,
                },
            ),
            r,
        ),
{
    let labels = match listing {
        Some(output) => if cfg.skip_launchctl {
            Vec::new()
        } else {
            vhidd::parse_launchctl_list(output)
        },
        None => Vec::new(),
    };
    let r = vhidd::classify(&labels);
    assert(labels.deep_view() =~= seen_labels(
        cfg.skip_launchctl,
        match listing {
            Some(output) => Some(output@),
            None => None,
        },
    ));
    r
}

/// The steps that install a component. A user who cannot be told stops the
/// agent's half only: the daemon's is done by then.
pub open spec fn install_steps(
    component: Component,
    prefix: Seq<char>,
    skip: bool,
    host: HostFacts,
) -> Seq<StepView> {
    let daemon = if component is Agent {
        Seq::empty()
    } else {
        daemon_steps(prefix, skip) + vhidd_steps(prefix, skip, host.management, host.vhidd_binary)
    };
    let agent = if component is Daemon {
        Seq::empty()
    } else {
        match host.user {
            Ok(user) => agent_steps(prefix, skip, user.uid, user.home@, host.bundled),
            Err(message) => seq![StepView::Abort { message: message@ }],
        }
    };
    daemon + agent
}

/// The steps that uninstall a component.
pub open spec fn uninstall_steps(
    component: Component,
    prefix: Seq<char>,
    skip: bool,
    user: Result<TargetUser, String>,
) -> Seq<StepView> {
    let daemon = if component is Agent {
        Seq::empty()
    } else {
        remove_daemon_steps(prefix, skip)
    };
    let agent = if component is Daemon {
        Seq::empty()
    } else {
        match user {
            Ok(user) => remove_agent_steps(prefix, skip, user.uid, user.home@),
            Err(message) => seq![StepView::Abort { message: message@ }],
        }
    };
    daemon + agent
}

fn append_steps(steps: &mut Vec<Step>, more: Vec<Step>)
    ensures
        final(steps).deep_view() == old(steps).deep_view() + more.deep_view(),
{
    let ghost before = steps.deep_view();
    let ghost added = more.deep_view();
    let mut more = more;
    steps.append(&mut more);
    assert(steps.deep_view() =~= before + added);
}

/// Install the requested component(s): the steps, in order, or the refusal to
/// touch the real system without root.
pub fn install(
    cfg: &InstallConfig,
    is_root_user: bool,
    host: &HostFacts,
) -> (r: Result<Vec<Step>, &'static str>)
    ensures
        r is Err <==> install::is_root(cfg.prefix@) && !is_root_user,
        r matches Err(message) ==> message@ == install::NEEDS_ROOT@,
        r matches Ok(steps) ==> steps.deep_view() == install_steps(
            cfg.component,
            cfg.prefix@,
            cfg.skip_launchctl,
            *host,
        ),
{
    match check_privilege(cfg, is_root_user) {
        Err(message) => return Err(message),
        Ok(()) => {},
    }
    let mut steps: Vec<Step> = Vec::new();
    assert(steps.deep_view() =~= Seq::empty());
    if cfg.component.wants_daemon() {
        append_steps(&mut steps, daemon_plan(cfg));
        append_steps(&mut steps, vhidd_plan(cfg, &host.management, host.vhidd_binary));
    }
    if cfg.component.wants_agent() {
        match &host.user {
            Ok(user) => append_steps(&mut steps, agent_plan(cfg, user, host.bundled)),
            Err(message) => {
                let ghost before = steps.deep_view();
                steps.push(Step::Abort { message: message.clone() });
                assert(steps.deep_view() =~= before + seq![
                    StepView::Abort { message: message@ },
                ]);
            },
        }
    }
    assert(steps.deep_view() =~= install_steps(
        cfg.component,
        cfg.prefix@,
        cfg.skip_launchctl,
        *host,
    ));
    Ok(steps)
}

/// Uninstall the requested component(s): boot the launchd job(s) out and remove
/// every path that installing could have created, or the refusal to touch the
/// real system without root.
pub fn uninstall(
    cfg: &InstallConfig,
    is_root_user: bool,
    user: &Result<TargetUser, String>,
) -> (r: Result<Vec<Step>, &'static str>)
    ensures
        r is Err <==> install::is_root(cfg.prefix@) && !is_root_user,
        r matches Err(message) ==> message@ == install::NEEDS_ROOT@,
        r matches Ok(steps) ==> steps.deep_view() == uninstall_steps(
            cfg.component,
            cfg.prefix@,
            cfg.skip_launchctl,
            *user,
        ),
{
    match check_privilege(cfg, is_root_user) {
        Err(message) => return Err(message),
        Ok(()) => {},
    }
    let mut steps: Vec<Step> = Vec::new();
    assert(steps.deep_view() =~= Seq::empty());
    if cfg.component.wants_daemon() {
        append_steps(&mut steps, remove_daemon_plan(cfg));
    }
    if cfg.component.wants_agent() {
        match user {
            Ok(user) => append_steps(&mut steps, remove_agent_plan(cfg, user)),
            Err(message) => {
                let ghost before = steps.deep_view();
                steps.push(Step::Abort { message: message.clone() });
                assert(steps.deep_view() =~= before + seq![
                    StepView::Abort { message: message@ },
                ]);
            },
        }
    }
    assert(steps.deep_view() =~= uninstall_steps(
        cfg.component,
        cfg.prefix@,
        cfg.skip_launchctl,
        *user,
    ));
    Ok(steps)
}

// ── Uninstall leaves nothing ────────────────────────────────────────────────

/// Some step removes the path.
pub open spec fn removed_by(steps: Seq<StepView>, path: Seq<char>) -> bool {
    exists|i: int| 0 <= i < steps.len() && removes(#[trigger] steps[i]) == Some(path)
}

proof fn removal_found(steps: Seq<StepView>, i: int, path: Seq<char>)
    requires
        0 <= i < steps.len(),
        removes(steps[i]) == Some(path),
    ensures
        removed_by(steps, path),
{
}

/// Whatever installing the daemon creates, its own job and the VHID job alike,
/// uninstalling it removes.
pub proof fn uninstall_removes_what_the_daemon_install_created(
    prefix: Seq<char>,
    skip_install: bool,
    skip_uninstall: bool,
    management: VhiddManagement,
    binary_present: bool,
    i: int,
)
    requires
        0 <= i < (daemon_steps(prefix, skip_install) + vhidd_steps(
            prefix,
            skip_install,
            management,
            binary_present,
        )).len(),
        creates(
            (daemon_steps(prefix, skip_install) + vhidd_steps(
                prefix,
                skip_install,
                management,
                binary_present,
            ))[i],
        ) is Some,
    ensures
        removed_by(
            remove_daemon_steps(prefix, skip_uninstall),
            creates(
                (daemon_steps(prefix, skip_install) + vhidd_steps(
                    prefix,
                    skip_install,
                    management,
                    binary_present,
                ))[i],
            )->0,
        ),
{
    let done = daemon_steps(prefix, skip_install);
    let undo = remove_daemon_steps(prefix, skip_uninstall);
    let at: int = if skip_uninstall {
        0
    } else {
        2
    };
    removal_found(undo, at, install::under_path(prefix, install::VHIDD_PLIST_PATH@));
    removal_found(undo, at + 1, install::under_path(prefix, install::DAEMON_PLIST_PATH@));
    removal_found(undo, at + 2, install::under_path(prefix, install::DAEMON_BIN@));
    removal_found(undo, at + 3, install::under_path(prefix, install::CTL_BIN@));
    removal_found(undo, at + 4, install::under_path(prefix, install::BASH_COMPLETION_PATH@));
    removal_found(undo, at + 5, install::under_path(prefix, install::ZSH_COMPLETION_PATH@));
    removal_found(undo, at + 6, install::under_path(prefix, install::FISH_COMPLETION_PATH@));
    removal_found(undo, at + 9, install::under_path(prefix, install::LOGS_DIR@));
    if i < done.len() {
        assert((done + vhidd_steps(prefix, skip_install, management, binary_present))[i]
            == done[i]);
    } else {
        assert((done + vhidd_steps(prefix, skip_install, management, binary_present))[i]
            == vhidd_steps(prefix, skip_install, management, binary_present)[i - done.len()]);
    }
}

/// Whatever installing the agent creates, uninstalling it removes.
pub proof fn uninstall_removes_what_the_agent_install_created(
    prefix: Seq<char>,
    skip_install: bool,
    skip_uninstall: bool,
    uid: u32,
    home: Seq<char>,
    bundled: bool,
    i: int,
)
    requires
        0 <= i < agent_steps(prefix, skip_install, uid, home, bundled).len(),
        creates(agent_steps(prefix, skip_install, uid, home, bundled)[i]) is Some,
    ensures
        removed_by(
            remove_agent_steps(prefix, skip_uninstall, uid, home),
            creates(agent_steps(prefix, skip_install, uid, home, bundled)[i])->0,
        ),
{
    let undo = remove_agent_steps(prefix, skip_uninstall, uid, home);
    let at: int = if skip_uninstall {
        0
    } else {
        1
    };
    removal_found(undo, at, agent_plist_at(prefix, home));
    removal_found(undo, at + 1, install::under_path(prefix, install::UNBUNDLED_TRAY@));
}

/// Uninstalling a component leaves nothing of what installing it created,
/// whatever the machine was like.
pub proof fn uninstall_leaves_nothing_behind(
    component: Component,
    prefix: Seq<char>,
    skip_install: bool,
    skip_uninstall: bool,
    host: HostFacts,
    i: int,
)
    requires
        0 <= i < install_steps(component, prefix, skip_install, host).len(),
        creates(install_steps(component, prefix, skip_install, host)[i]) is Some,
    ensures
        removed_by(
            uninstall_steps(component, prefix, skip_uninstall, host.user),
            creates(install_steps(component, prefix, skip_install, host)[i])->0,
        ),
{
    let daemon = daemon_steps(prefix, skip_install) + vhidd_steps(
        prefix,
        skip_install,
        host.management,
        host.vhidd_binary,
    );
    let done = install_steps(component, prefix, skip_install, host);
    let undo = uninstall_steps(component, prefix, skip_uninstall, host.user);
    let path = creates(done[i])->0;
    let split: int = if component is Agent {
        0
    } else {
        daemon.len() as int
    };
    let cut: int = if component is Agent {
        0
    } else {
        remove_daemon_steps(prefix, skip_uninstall).len() as int
    };
    if i < split {
        assert(done[i] == daemon[i]);
        uninstall_removes_what_the_daemon_install_created(
            prefix,
            skip_install,
            skip_uninstall,
            host.management,
            host.vhidd_binary,
            i,
        );
        let steps = remove_daemon_steps(prefix, skip_uninstall);
        let k = choose|k: int| 0 <= k < steps.len() && removes(#[trigger] steps[k]) == Some(path);
        assert(undo[k] == steps[k]);
        removal_found(undo, k, path);
    } else {
        match host.user {
            Ok(user) => {
                let agent = agent_steps(prefix, skip_install, user.uid, user.home@, host.bundled);
                assert(done[i] == agent[i - split]);
                uninstall_removes_what_the_agent_install_created(
                    prefix,
                    skip_install,
                    skip_uninstall,
                    user.uid,
                    user.home@,
                    host.bundled,
                    i - split,
                );
                let steps = remove_agent_steps(prefix, skip_uninstall, user.uid, user.home@);
                let k = choose|k: int|
                    0 <= k < steps.len() && removes(#[trigger] steps[k]) == Some(path);
                assert(undo[cut + k] == steps[k]);
                removal_found(undo, cut + k, path);
            },
            Err(_) => {},
        }
    }
}

/// Without `launchctl` nothing is loaded or unloaded.
pub proof fn skipping_launchctl_touches_no_job(
    prefix: Seq<char>,
    management: VhiddManagement,
    binary_present: bool,
    uid: u32,
    home: Seq<char>,
    bundled: bool,
    i: int,
)
    ensures
        0 <= i < daemon_steps(prefix, true).len() ==> !(daemon_steps(prefix, true)[i] is Bootout)
            && !(daemon_steps(prefix, true)[i] is Bootstrap),
        0 <= i < vhidd_steps(prefix, true, management, binary_present).len() ==> !(vhidd_steps(
            prefix,
            true,
            management,
            binary_present,
        )[i] is Bootout) && !(vhidd_steps(prefix, true, management, binary_present)[i] is Bootstrap),
        0 <= i < agent_steps(prefix, true, uid, home, bundled).len() ==> !(agent_steps(
            prefix,
            true,
            uid,
            home,
            bundled,
        )[i] is Bootout) && !(agent_steps(prefix, true, uid, home, bundled)[i] is Bootstrap),
        0 <= i < remove_daemon_steps(prefix, true).len() ==> !(remove_daemon_steps(
            prefix,
            true,
        )[i] is Bootout),
        0 <= i < remove_agent_steps(prefix, true, uid, home).len() ==> !(remove_agent_steps(
            prefix,
            true,
            uid,
            home,
        )[i] is Bootout),
{
}

/// Where something else manages the VHID daemon, or its binary is missing, the
/// installer writes and loads nothing for it.
pub proof fn vhidd_left_alone(
    prefix: Seq<char>,
    skip: bool,
    management: VhiddManagement,
    binary_present: bool,
)
    requires
        management is Other || !binary_present,
    ensures
        vhidd_steps(prefix, skip, management, binary_present).len() == 1,
        vhidd_steps(prefix, skip, management, binary_present)[0] is Say,
{
}

/// The system's jobs are looked at exactly where `launchctl` is used and answered.
pub proof fn labels_are_seen_with_launchctl_only(skip: bool, listing: Option<Seq<char>>)
    ensures
        skip || listing is None ==> seen_labels(skip, listing) == Seq::<Seq<char>>::empty(),
        !skip && listing is Some ==> seen_labels(skip, listing) == vhidd::labels_in(listing->0),
{
}

} // verus!
