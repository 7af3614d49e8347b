//! The tray's view of daemon state, driven by the event stream. Pure reducer:
//! no I/O, no UI.
//!
//! The tray seeds itself with one `GetStatus` + `ListPresets` on connect, then
//! folds each pushed [`Event`] into the held [`Status`] rather than re-polling.

use vstd::prelude::*;

use crate::ipc::{Event, PresetInfo, PresetInfoView, Status, StatusView};
use crate::model::{self, MenuModel};
use crate::state::SupervisorState;
use crate::text::same;

verus! {

broadcast use vstd::string::group_string_axioms;

/// The tray's last-known daemon state. `None` status means "not seeded yet";
/// `connected` tracks whether the socket is currently up.
#[derive(Debug, Clone)]
pub struct Session {
    connected: bool,
    status: Option<Status>,
    presets: Vec<PresetInfo>,
}

/// What a [`Session`] holds.
#[verifier::ext_equal]
pub struct SessionView {
    pub connected: bool,
    pub status: Option<StatusView>,
    pub presets: Seq<PresetInfoView>,
}

impl View for Session {
    type V = SessionView;

    closed spec fn view(&self) -> SessionView {
        SessionView {
            connected: self.connected,
            status: self.status.deep_view(),
            presets: self.presets.deep_view(),
        }
    }
}

/// A session that knows nothing.
pub open spec fn blank() -> SessionView {
    SessionView { connected: false, status: None, presets: Seq::empty() }
}

/// The error note after a transition: the reason on entering `Degraded`, none
/// in any other state, and the note as it was where `Degraded` comes without a
/// reason.
pub open spec fn note_after(
    note: Option<Seq<char>>,
    to: SupervisorState,
    reason: Option<crate::state::DegradedReason>,
) -> Option<Seq<char>> {
    if to != SupervisorState::Degraded {
        None
    } else {
        match reason {
            Some(reason) => Some(reason.text()),
            None => note,
        }
    }
}

/// The presets with the one of that name as the active one.
pub open spec fn activated(presets: Seq<PresetInfoView>, name: Seq<char>) -> Seq<PresetInfoView> {
    presets.map_values(|p: PresetInfoView| PresetInfoView { active: p.name == name, ..p })
}

/// The session after a pushed event: unchanged until it is seeded.
pub open spec fn folded(session: SessionView, event: Event) -> SessionView {
    match session.status {
        None => session,
        Some(status) => match event {
            Event::StateChanged { from: _, to, reason } => SessionView {
                status: Some(
                    StatusView {
                        state: to,
                        last_error: note_after(status.last_error, to, reason),
                        ..status
                    },
                ),
                ..session
            },
            Event::LayerChanged { layer } => SessionView {
                status: Some(StatusView { active_layer: Some(layer@), ..status }),
                ..session
            },
            Event::ConfigApplied { preset: Some(name), path: _ } => SessionView {
                status: Some(StatusView { active_preset: Some(name@), ..status }),
                presets: activated(session.presets, name@),
                ..session
            },
            Event::DriverIssue { kind: _, message } => SessionView {
                status: Some(StatusView { last_error: Some(message@), ..status }),
                ..session
            },
            _ => session,
        },
    }
}

/// The session is connected and seeded.
pub open spec fn live(session: SessionView) -> bool {
    session.connected && session.status is Some
}

impl Default for Session {
    fn default() -> (r: Self)
        ensures
            r@ == blank(),
    {
        let r = Session { connected: false, status: None, presets: Vec::new() };
        assert(r@ =~= blank());
        r
    }
}

impl Session {
    /// A fresh, disconnected session.
    pub fn new() -> (r: Self)
        ensures
            r@ == blank(),
    {
        Session::default()
    }

    /// Mark the connection lost; the held snapshot is dropped so a stale
    /// status can't be shown as if it were live.
    pub fn disconnect(&mut self)
        ensures
            final(self)@ == blank(),
    {
        self.connected = false;
        self.status = None;
        self.presets = Vec::new();
        assert(self@ =~= blank());
    }

    /// Seed from the initial `GetStatus` reply; also marks the session
    /// connected.
    pub fn set_status(&mut self, status: Status)
        ensures
            final(self)@ == (SessionView {
                connected: true,
                status: Some(status.deep_view()),
                ..old(self)@
            }),
    {
        self.connected = true;
        self.status = Some(status);
    }

    /// Seed / refresh the preset list (`ListPresets`).
    pub fn set_presets(&mut self, presets: Vec<PresetInfo>)
        ensures
            final(self)@ == (SessionView { presets: presets.deep_view(), ..old(self)@ }),
    {
        self.presets = presets;
    }

    /// Whether the session currently believes it is connected and seeded.
    pub fn is_live(&self) -> (r: bool)
        ensures
            r == live(self@),
    {
        self.connected && self.status.is_some()
    }

    /// Fold one pushed event into the held snapshot. A no-op until the session
    /// has been seeded with a `Status`, since events only carry deltas.
    pub fn apply_event(&mut self, event: &Event)
        ensures
            final(self)@ == folded(old(self)@, *event),
    {
        let ghost before = self@;
        match &mut self.status {
            None => {
                return ;
            },
            Some(status) => match event {
                Event::StateChanged { from: _, to, reason } => {
                    status.state = *to;
                    match *to {
                        // Entering Degraded: surface the actionable reason.
                        SupervisorState::Degraded => {
                            if let Some(reason) = reason {
                                status.last_error = Some(reason.describe().to_owned());
                            }
                        },
                        // Leaving Degraded for a healthy state: clear the note.
                        _ => {
                            status.last_error = None;
                        },
                    }
                },
                Event::LayerChanged { layer } => {
                    status.active_layer = Some(layer.clone());
                },
                Event::ConfigApplied { preset, path: _ } => {
                    if let Some(name) = preset {
                        status.active_preset = Some(name.clone());
                    }
                },
                Event::DriverIssue { kind: _, message } => {
                    status.last_error = Some(message.clone());
                },
                // Device add/remove and crash notices don't change the rendered
                // model on their own: a StateChanged follows a crash, the devices
                // submenu is fetched on demand, and a changed preset list is
                // fetched anew.
                Event::DeviceChanged { .. } | Event::Crash { .. } | Event::PresetsChanged => {},
            },
        }
        if let Event::ConfigApplied { preset: Some(name), path: _ } = event {
            self.mark_active(name.as_str());
        }
        assert(self@ =~= folded(before, *event));
    }

    /// Move the checkmark to the preset of this name.
    fn mark_active(&mut self, name: &str)
        ensures
            final(self).connected == old(self).connected,
            final(self).status == old(self).status,
            final(self).presets.deep_view() == activated(old(self).presets.deep_view(), name@),
    {
        let ghost before = self.presets.deep_view();
        let mut moved: Vec<PresetInfo> = Vec::new();
        let mut i: usize = 0;
        while i < self.presets.len()
            invariant
                i <= self.presets@.len(),
                before == self.presets.deep_view(),
                self.connected == old(self).connected,
                self.status == old(self).status,
                moved@.len() == i,
                forall|k: int|
                    0 <= k < i ==> (#[trigger] moved@[k]).deep_view() == activated(
                        before,
                        name@,
                    )[k],
            decreases self.presets@.len() - i,
        {
            let p = &self.presets[i];
            let active = same(p.name.as_str(), name);
            assert(before[i as int] == p.deep_view());
            moved.push(
                PresetInfo {
                    name: p.name.clone(),
                    config: p.config.clone(),
                    autostart: p.autostart,
                    active,
                },
            );
            i += 1;
        }
        self.presets = moved;
        assert(self.presets.deep_view() =~= activated(before, name@));
    }

    /// The menu to render right now.
    pub fn menu_model(&self) -> (r: MenuModel)
        ensures
            r.deep_view() == (if live(self@) {
                model::connected_menu(self@.status->0, self@.presets)
            } else {
                model::disconnected_menu()
            }),
    {
        match &self.status {
            Some(status) => if self.connected {
                let presets = self.presets.as_slice();
                assert(presets.deep_view() =~= self.presets.deep_view());
                MenuModel::connected(status, presets)
            } else {
                MenuModel::disconnected()
            },
            None => MenuModel::disconnected(),
        }
    }
}

/// The session after a run of pushed events.
pub open spec fn folded_all(session: SessionView, events: Seq<Event>) -> SessionView
    decreases events.len(),
{
    if events.len() == 0 {
        session
    } else {
        folded(folded_all(session, events.drop_last()), events.last())
    }
}

/// No run of events connects, disconnects or seeds a session: only a status
/// and a lost connection do. Events before seeding change nothing at all.
pub proof fn events_never_seed(session: SessionView, events: Seq<Event>)
    ensures
        live(folded_all(session, events)) == live(session),
        folded_all(session, events).connected == session.connected,
        session.status is None ==> folded_all(session, events) == session,
    decreases events.len(),
{
    if events.len() > 0 {
        events_never_seed(session, events.drop_last());
    }
}

/// The menu follows the machine: after a state change the glyph and the
/// commands are those of the new state.
pub proof fn state_change_is_shown(
    session: SessionView,
    from: SupervisorState,
    to: SupervisorState,
    reason: Option<crate::state::DegradedReason>,
)
    requires
        live(session),
    ensures
        ({
            let after = folded(session, Event::StateChanged { from, to, reason });
            let menu = model::connected_menu(after.status->0, after.presets);
            &&& live(after)
            &&& menu.icon == model::icon_for(to)
            &&& menu.caps == model::caps_for(to)
            &&& to != SupervisorState::Degraded ==> after.status->0.last_error is None
        }),
{
}

/// After a preset was applied, exactly the presets of that name are active.
pub proof fn applied_preset_is_the_active_one(
    session: SessionView,
    name: String,
    path: String,
    i: int,
)
    requires
        session.status is Some,
        0 <= i < session.presets.len(),
    ensures
        ({
            let after = folded(session, Event::ConfigApplied { preset: Some(name), path });
            &&& after.presets.len() == session.presets.len()
            &&& after.presets[i].name == session.presets[i].name
            &&& after.presets[i].active <==> session.presets[i].name == name@
        }),
{
}

/// Each event changes just what it reports of a seeded session: a transition the
/// state and the error note, which on entering `Degraded` is the text of the
/// reported reason; a layer change the layer; an applied preset which preset is
/// active; a driver issue the note. Everything else stays, and events that report
/// nothing of the status change nothing.
pub proof fn events_change_what_they_report(session: SessionView, event: Event)
    requires
        session.status is Some,
    ensures
        ({
            let old = session.status->0;
            let new = folded(session, event);
            &&& new.connected == session.connected
            &&& event matches Event::StateChanged { from, to, reason } ==> {
                &&& new.presets == session.presets
                &&& new.status->0 == (StatusView {
                    state: to,
                    last_error: new.status->0.last_error,
                    ..old
                })
                &&& to != SupervisorState::Degraded ==> new.status->0.last_error is None
                &&& to == SupervisorState::Degraded && reason is None
                    ==> new.status->0.last_error == old.last_error
                &&& to == SupervisorState::Degraded && reason is Some
                    ==> new.status->0.last_error == Some(reason->0.text())
            }
            &&& event matches Event::LayerChanged { layer } ==> new.presets == session.presets
                && new.status->0 == (StatusView { active_layer: Some(layer@), ..old })
            &&& event matches Event::DriverIssue { kind, message } ==> new.presets
                == session.presets && new.status->0 == (StatusView {
                last_error: Some(message@),
                ..old
            })
            &&& event matches Event::ConfigApplied { preset, path } ==> match preset {
                Some(name) => new.status->0 == (StatusView {
                    active_preset: Some(name@),
                    ..old
                }) && new.presets.len() == session.presets.len() && forall|i: int|
                    0 <= i < session.presets.len() ==> {
                        &&& (#[trigger] new.presets[i]).name == session.presets[i].name
                        &&& new.presets[i].config == session.presets[i].config
                        &&& new.presets[i].autostart == session.presets[i].autostart
                        &&& new.presets[i].active <==> session.presets[i].name == name@
                    },
                None => new == session,
            }
            &&& !(event is StateChanged) && !(event is LayerChanged) && !(event is DriverIssue)
                && !(event is ConfigApplied) ==> new == session
        }),
{
}

/// A machine's own report of a transition leaves the tray with what the machine
/// holds: its state, and for a degraded machine the text of its reason.
pub proof fn the_tray_shows_the_machine(
    session: SessionView,
    m: crate::machine::Machine,
    event: crate::machine::MachineEvent,
)
    requires
        session.status is Some,
        m.wf(),
        m.change(event) is Some,
    ensures
        ({
            let c = m.change(event)->0;
            let new = folded(
                session,
                Event::StateChanged { from: c.from, to: c.to, reason: c.reason },
            );
            &&& new.status->0.state == m.after(event).state
            &&& m.after(event).reason matches Some(reason) ==> new.status->0.last_error == Some(
                reason.text(),
            )
            &&& m.after(event).reason is None ==> new.status->0.last_error is None
        }),
{
}

} // verus!
