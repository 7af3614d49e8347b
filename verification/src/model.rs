//! Pure state → menu view-model: "what should the menu look like".

use vstd::prelude::*;

use crate::ipc::{PresetInfo, PresetInfoView, Status, StatusView};
use crate::machine::{Machine, MachineEvent};
use crate::state::SupervisorState;
use crate::text::split::{self, before};
use crate::text::{self, chars_of, slice_of, trim_end, trim_end_of};

verus! {

broadcast use vstd::string::group_string_axioms;

/// Which status glyph to show. `Idle` covers the states (Stopped / Starting /
/// Backoff) that have no distinct icon.
#[derive(Debug, Clone, Copy, PartialEq, Eq, Structural)]
pub enum IconKind {
    /// Child running and healthy.
    Running,
    /// Remapping paused by the user.
    Paused,
    /// Degraded: needs user action (badge).
    Degraded,
    /// Connected but neither running, paused, nor degraded.
    Idle,
    /// No connection to the daemon.
    Disconnected,
}

/// The glyph for a state.
pub open spec fn icon_for(state: SupervisorState) -> IconKind {
    match state {
        SupervisorState::Running => IconKind::Running,
        SupervisorState::Paused => IconKind::Paused,
        SupervisorState::Degraded => IconKind::Degraded,
        _ => IconKind::Idle,
    }
}

impl IconKind {
    /// The glyph for a connected daemon reporting `state`.
    pub fn for_state(state: SupervisorState) -> (r: Self)
        ensures
            r == icon_for(state),
    {
        match state {
            SupervisorState::Running => Self::Running,
            SupervisorState::Paused => Self::Paused,
            SupervisorState::Degraded => Self::Degraded,
            SupervisorState::Stopped | SupervisorState::Starting | SupervisorState::Backoff =>
                Self::Idle,
        }
    }
}

/// Which lifecycle commands the menu should currently enable. Mirrors the
/// machine's transition table so the tray never offers a command the daemon
/// would reject: the daemon remains the authority (it re-validates), but
/// greying out impossible actions is better UX.
#[derive(Debug, Clone, Copy, PartialEq, Eq, Structural)]
pub struct Capabilities {
    /// `Start` is available.
    pub start: bool,
    /// `Stop` is available.
    pub stop: bool,
    /// `Restart` is available.
    pub restart: bool,
    /// `Pause` is available.
    pub pause: bool,
    /// `Resume` is available.
    pub resume: bool,
}

/// No command is available.
pub open spec fn no_caps() -> Capabilities {
    Capabilities { start: false, stop: false, restart: false, pause: false, resume: false }
}

/// The commands that a state allows.
pub open spec fn caps_for(state: SupervisorState) -> Capabilities {
    Capabilities {
        start: state != SupervisorState::Starting && state != SupervisorState::Running,
        stop: state != SupervisorState::Stopped,
        restart: state != SupervisorState::Starting && state != SupervisorState::Paused,
        pause: state == SupervisorState::Running,
        resume: state == SupervisorState::Paused,
    }
}

impl Default for Capabilities {
    fn default() -> (r: Self)
        ensures
            r == no_caps(),
    {
        Capabilities { start: false, stop: false, restart: false, pause: false, resume: false }
    }
}

impl Capabilities {
    /// Enabled commands for a connected daemon in `state`.
    pub fn for_state(state: SupervisorState) -> (r: Self)
        ensures
            r == caps_for(state),
    {
        match state {
            SupervisorState::Stopped => Capabilities {
                start: true,
                stop: false,
                restart: true,
                pause: false,
                resume: false,
            },
            SupervisorState::Starting => Capabilities {
                start: false,
                stop: true,
                restart: false,
                pause: false,
                resume: false,
            },
            SupervisorState::Running => Capabilities {
                start: false,
                stop: true,
                restart: true,
                pause: true,
                resume: false,
            },
            SupervisorState::Backoff | SupervisorState::Degraded => Capabilities {
                start: true,
                stop: true,
                restart: true,
                pause: false,
                resume: false,
            },
            SupervisorState::Paused => Capabilities {
                start: true,
                stop: true,
                restart: false,
                pause: false,
                resume: true,
            },
        }
    }
}

/// The menu offers exactly the commands that the machine accepts.
pub proof fn capabilities_mirror_the_machine(m: Machine)
    ensures
        caps_for(m.state).start <==> m.target(MachineEvent::Start) is Some,
        caps_for(m.state).stop <==> m.target(MachineEvent::Stop) is Some,
        caps_for(m.state).restart <==> m.target(MachineEvent::Restart) is Some,
        caps_for(m.state).pause <==> m.target(MachineEvent::Pause) is Some,
        caps_for(m.state).resume <==> m.target(MachineEvent::Resume) is Some,
{
}

/// One entry in the Presets submenu (checkmarked when active).
#[derive(Debug, Clone, PartialEq, Eq)]
pub struct PresetEntry {
    /// Preset name (also its menu-item id, `preset:<name>`).
    pub name: String,
    /// Whether it is the active preset (shows a checkmark).
    pub active: bool,
}

/// What a [`PresetEntry`] shows.
#[verifier::ext_equal]
pub struct PresetEntryView {
    pub name: Seq<char>,
    pub active: bool,
}

impl DeepView for PresetEntry {
    type V = PresetEntryView;

    open spec fn deep_view(&self) -> PresetEntryView {
        PresetEntryView { name: self.name@, active: self.active }
    }
}

/// Everything the menu needs, computed from the daemon's last-known state.
#[derive(Debug, Clone, PartialEq, Eq)]
pub struct MenuModel {
    /// Status-bar glyph.
    pub icon: IconKind,
    /// Whether the daemon is currently reachable.
    pub connected: bool,
    /// The (disabled) state line at the top of the menu.
    pub state_line: String,
    /// The (disabled) active-layer line, when a layer is known.
    pub layer_line: Option<String>,
    /// Which lifecycle commands to enable.
    pub caps: Capabilities,
    /// Presets submenu entries.
    pub presets: Vec<PresetEntry>,
    /// The active preset's `.kbd` path, the target of "Edit Config" /
    /// "Validate Config"; `None` disables those items (safe config or no preset
    /// selected).
    pub active_config: Option<String>,
}

/// What a [`MenuModel`] shows.
#[verifier::ext_equal]
pub struct MenuModelView {
    pub icon: IconKind,
    pub connected: bool,
    pub state_line: Seq<char>,
    pub layer_line: Option<Seq<char>>,
    pub caps: Capabilities,
    pub presets: Seq<PresetEntryView>,
    pub active_config: Option<Seq<char>>,
}

impl DeepView for MenuModel {
    type V = MenuModelView;

    open spec fn deep_view(&self) -> MenuModelView {
        MenuModelView {
            icon: self.icon,
            connected: self.connected,
            state_line: self.state_line@,
            layer_line: self.layer_line.deep_view(),
            caps: self.caps,
            presets: self.presets.deep_view(),
            active_config: self.active_config.deep_view(),
        }
    }
}

/// The menu without a daemon: everything disabled.
pub open spec fn disconnected_menu() -> MenuModelView {
    MenuModelView {
        icon: IconKind::Disconnected,
        connected: false,
        state_line: "Disconnected — reconnecting…"@,
        layer_line: None,
        caps: no_caps(),
        presets: Seq::empty(),
        active_config: None,
    }
}

/// The `.kbd` path of the first active preset.
pub open spec fn active_path(presets: Seq<PresetInfoView>) -> Option<Seq<char>>
    decreases presets.len(),
{
    if presets.len() == 0 {
        None
    } else if presets[0].active {
        Some(presets[0].config)
    } else {
        active_path(presets.skip(1))
    }
}

/// The menu of a live daemon.
pub open spec fn connected_menu(
    status: StatusView,
    presets: Seq<PresetInfoView>,
) -> MenuModelView {
    MenuModelView {
        icon: icon_for(status.state),
        connected: true,
        state_line: state_line_of(status),
        layer_line: match status.active_layer {
            Some(layer) => Some("Layer: "@ + layer),
            None => None,
        },
        caps: caps_for(status.state),
        presets: presets.map_values(
            |p: PresetInfoView| PresetEntryView { name: p.name, active: p.active },
        ),
        active_config: active_path(presets),
    }
}

impl MenuModel {
    /// No connection to the daemon: reconnect glyph, everything disabled.
    pub fn disconnected() -> (r: Self)
        ensures
            r.deep_view() == disconnected_menu(),
    {
        let r = MenuModel {
            icon: IconKind::Disconnected,
            connected: false,
            state_line: "Disconnected — reconnecting…".to_owned(),
            layer_line: None,
            caps: Capabilities::default(),
            presets: Vec::new(),
            active_config: None,
        };
        assert(r.deep_view() =~= disconnected_menu());
        r
    }

    /// Built from a live `Status` plus the preset list.
    pub fn connected(status: &Status, presets: &[PresetInfo]) -> (r: Self)
        ensures
            r.deep_view() == connected_menu(status.deep_view(), presets.deep_view()),
    {
        let layer_line = match &status.active_layer {
            Some(layer) => {
                let mut line = "Layer: ".to_owned();
                line.append(layer.as_str());
                Some(line)
            },
            None => None,
        };
        let mut entries: Vec<PresetEntry> = Vec::new();
        let mut active_config: Option<String> = None;
        let mut i: usize = 0;
        let ghost seen = presets.deep_view();
        assert(seen.skip(0) =~= seen);
        while i < presets.len()
            invariant
                i <= presets@.len(),
                seen == presets.deep_view(),
                entries@.len() == i,
                forall|k: int|
                    0 <= k < i ==> (#[trigger] entries@[k]).name@ == seen[k].name && entries@[k].active
                        == seen[k].active,
                active_config is None ==> active_path(seen) == active_path(seen.skip(i as int)),
                active_config is Some ==> active_path(seen) == active_config.deep_view(),
            decreases presets@.len() - i,
        {
            let p = &presets[i];
            assert(seen[i as int] == p.deep_view());
            assert(seen.skip(i as int)[0] == seen[i as int]);
            assert(seen.skip(i as int).skip(1) =~= seen.skip(i + 1));
            entries.push(PresetEntry { name: p.name.clone(), active: p.active });
            if p.active && active_config.is_none() {
                active_config = Some(p.config.clone());
            }
            i += 1;
        }
        assert(seen.skip(i as int) =~= Seq::<PresetInfoView>::empty());
        let r = MenuModel {
            icon: IconKind::for_state(status.state),
            connected: true,
            state_line: state_line(status),
            layer_line,
            caps: Capabilities::for_state(status.state),
            presets: entries,
            active_config,
        };
        assert(r.deep_view() =~= connected_menu(status.deep_view(), seen));
        r
    }
}

/// Some preset is active.
pub open spec fn some_active(presets: Seq<PresetInfoView>) -> bool {
    exists|i: int| 0 <= i < presets.len() && (#[trigger] presets[i]).active
}

/// "Edit Config" and "Validate Config" act on the active preset: the path is that
/// of a preset which is active, with no active preset before it, and there is no
/// path exactly when no preset is active.
pub proof fn active_config_is_the_active_preset(
    status: StatusView,
    presets: Seq<PresetInfoView>,
)
    ensures
        connected_menu(status, presets).active_config is None <==> !some_active(presets),
        connected_menu(status, presets).active_config matches Some(path) ==> exists|i: int|
            0 <= i < presets.len() && (#[trigger] presets[i]).active && presets[i].config == path
                && forall|j: int| 0 <= j < i ==> !(#[trigger] presets[j]).active,
    decreases presets.len(),
{
    if presets.len() > 0 {
        let rest = presets.skip(1);
        active_config_is_the_active_preset(status, rest);
        if presets[0].active {
            assert(presets[0].active);
        } else {
            assert forall|i: int| 0 <= i < rest.len() implies #[trigger] rest[i] == presets[i
                + 1] by {}
            if some_active(presets) {
                let i = choose|i: int| 0 <= i < presets.len() && (#[trigger] presets[i]).active;
                assert(rest[i - 1].active);
            }
            if active_path(rest) is Some {
                let i = choose|i: int|
                    0 <= i < rest.len() && (#[trigger] rest[i]).active && rest[i].config
                        == active_path(rest)->0 && forall|j: int|
                        0 <= j < i ==> !(#[trigger] rest[j]).active;
                assert(presets[i + 1].active && presets[i + 1].config == active_path(presets)->0);
                assert forall|j: int| 0 <= j < i + 1 implies !(#[trigger] presets[j]).active by {
                    if j > 0 {
                        assert(!rest[j - 1].active);
                    }
                }
            }
        }
    }
}

/// The menu shows every preset, in order, under its own name and checked exactly
/// when it is active; the icon, the layer and the commands are those of the
/// reported status.
pub proof fn connected_menu_shows_the_daemon(status: StatusView, presets: Seq<PresetInfoView>)
    ensures
        ({
            let menu = connected_menu(status, presets);
            &&& menu.connected
            &&& menu.presets.len() == presets.len()
            &&& forall|i: int|
                0 <= i < presets.len() ==> (#[trigger] menu.presets[i]).name == presets[i].name
                    && menu.presets[i].active == presets[i].active
            &&& menu.layer_line is Some <==> status.active_layer is Some
            &&& status.active_layer matches Some(layer) ==> text::occurs_at(
                menu.layer_line->0,
                layer,
                menu.layer_line->0.len() - layer.len(),
            )
            &&& menu.icon == IconKind::Running <==> status.state == SupervisorState::Running
            &&& menu.icon == IconKind::Paused <==> status.state == SupervisorState::Paused
            &&& menu.icon == IconKind::Degraded <==> status.state == SupervisorState::Degraded
            &&& menu.icon != IconKind::Disconnected
        }),
{
    if let Some(layer) = status.active_layer {
        let line = "Layer: "@ + layer;
        assert(line.subrange(line.len() - layer.len(), line.len() as int) =~= layer);
    }
}

/// The longest reason that the menu shows whole.
pub const MAX_REASON_CHARS: usize = 56;

/// The top menu line.
pub open spec fn state_line_of(status: StatusView) -> Seq<char> {
    if status.state == SupervisorState::Degraded {
        let reason = match status.last_error {
            Some(error) => error,
            None => "see kanatactl status"@,
        };
        "Degraded — "@ + shortened(reason)
    } else {
        "State: "@ + status.state.name_text()
    }
}

/// The top (disabled) menu line. For `Degraded` it carries the actionable
/// reason so the fix is visible without opening the CLI.
pub fn state_line(status: &Status) -> (r: String)
    ensures
        r@ == state_line_of(status.deep_view()),
{
    match status.state {
        SupervisorState::Degraded => {
            let mut r = "Degraded — ".to_owned();
            let reason = match &status.last_error {
                Some(error) => error.as_str(),
                None => "see kanatactl status",
            };
            r.append(short_reason(reason).as_str());
            r
        },
        other => {
            let mut r = "State: ".to_owned();
            r.append(other.name());
            r
        },
    }
}

/// The first sentence of a reason, without its full stop; a long one is cut and
/// marked with an ellipsis.
pub open spec fn shortened(reason: Seq<char>) -> Seq<char> {
    let first = text::drop_trail(split::before_first(reason, ". "@), text::only('.'));
    if first.len() <= MAX_REASON_CHARS {
        first
    } else {
        text::drop_trail(first.take(MAX_REASON_CHARS as int), text::white()) + "…"@
    }
}

/// A `Degraded` reason can be a long multi-sentence fix hint; shown verbatim in
/// the disabled menu item it stretches the whole menu across the screen. Keep
/// the menu narrow with the first sentence, capped: the full hint still rides
/// the degraded notification.
fn short_reason(reason: &str) -> (r: String)
    ensures
        r@ == shortened(reason@),
{
    let first = trim_end_of(before(reason, ". ").as_str(), '.');
    let cs = chars_of(first.as_str());
    if cs.len() <= MAX_REASON_CHARS {
        first
    } else {
        let head = slice_of(cs.as_slice(), 0, MAX_REASON_CHARS);
        assert(head@ =~= first@.take(MAX_REASON_CHARS as int));
        let mut r = trim_end(head.as_str());
        r.append("…");
        r
    }
}

/// The menu stays narrow: whatever the daemon reports, the state line is under
/// eighty characters.
pub proof fn state_line_stays_narrow(status: StatusView)
    ensures
        state_line_of(status).len() < 80,
{
    reveal_strlit("Degraded — ");
    reveal_strlit("…");
    reveal_strlit("State: ");
    reveal_strlit("Stopped");
    reveal_strlit("Starting");
    reveal_strlit("Running");
    reveal_strlit("Backoff");
    reveal_strlit("Paused");
    if status.state == SupervisorState::Degraded {
        let reason = match status.last_error {
            Some(error) => error,
            None => "see kanatactl status"@,
        };
        let first = text::drop_trail(split::before_first(reason, ". "@), text::only('.'));
        if first.len() > MAX_REASON_CHARS {
            text::trail_is_longest(first.take(MAX_REASON_CHARS as int), text::white());
        }
    }
}

/// The state line tells the state by its name, and of a degraded daemon the
/// beginning of what the daemon says of it.
pub proof fn the_state_line_tells_the_state(status: StatusView)
    ensures
        status.state != SupervisorState::Degraded ==> state_line_of(status) == "State: "@
            + status.state.name_text(),
        status.state == SupervisorState::Degraded ==> text::begins(
            state_line_of(status),
            "Degraded — "@,
        ),
        status.state == SupervisorState::Degraded && status.last_error is None ==> state_line_of(
            status,
        ) == "Degraded — "@ + shortened("see kanatactl status"@),
        status.state == SupervisorState::Degraded ==> (status.last_error matches Some(error)
            ==> state_line_of(status) == "Degraded — "@ + shortened(error)),
{
    let head = "Degraded — "@;
    if status.state == SupervisorState::Degraded {
        assert(state_line_of(status).subrange(0, head.len() as int) =~= head);
    }
}

/// A short reason of one sentence is shown as it is, and what is shown of any is
/// its beginning, with an ellipsis where it is cut.
pub proof fn reasons_are_shown_from_the_start(reason: Seq<char>)
    ensures
        !text::occurs(reason, ". "@) && reason.len() <= MAX_REASON_CHARS && (reason.len() > 0
            ==> reason.last() != '.') ==> shortened(reason) == reason,
        ({
            let first = text::drop_trail(split::before_first(reason, ". "@), text::only('.'));
            &&& first.len() <= 56 ==> shortened(reason) == first
            &&& first.len() > 56 ==> shortened(reason).len() <= 57 && shortened(reason).last()
                == '…'
        }),
{
    reveal_strlit("…");
    let first = text::drop_trail(split::before_first(reason, ". "@), text::only('.'));
    if first.len() > MAX_REASON_CHARS {
        text::trail_is_longest(first.take(MAX_REASON_CHARS as int), text::white());
    }
    if !text::occurs(reason, ". "@) && (reason.len() > 0 ==> reason.last() != '.') {
        text::trail_is(reason, text::only('.'), 0);
        assert(first =~= reason);
    }
}

} // verus!
