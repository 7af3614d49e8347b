//! What the tray's control-socket client loop decides: how a connection is
//! seeded, what each pushed event makes of the menu, and how long to wait before
//! reconnecting. The loop itself runs on a background runtime and never touches
//! UI types: it emits [`Update`]s that the GUI shell marshals to the main thread.

use vstd::prelude::*;

use crate::ipc::{Event, PresetInfo, Status};
use crate::machine;
use crate::model::{self, MenuModel, MenuModelView};
use crate::notify::{self, notification_for};
use crate::reconnect::Reconnector;
use crate::session::{self, Session, SessionView};

verus! {

broadcast use vstd::string::group_string_axioms;

/// What the connection loop hands to the UI thread.
#[derive(Debug, Clone, PartialEq, Eq)]
pub enum Update {
    /// The menu should be rebuilt from this model.
    Model(MenuModel),
    /// A desktop notification should be shown.
    Notify {
        /// Notification title.
        title: String,
        /// Notification body.
        body: String,
    },
    /// A device came or went: a device list that is showing should be fetched
    /// anew.
    DevicesChanged,
}

/// What an [`Update`] says.
pub enum UpdateView {
    Model(MenuModelView),
    Notify { title: Seq<char>, body: Seq<char> },
    DevicesChanged,
}

impl DeepView for Update {
    type V = UpdateView;

    open spec fn deep_view(&self) -> UpdateView {
        match *self {
            Update::Model(model) => UpdateView::Model(model.deep_view()),
            Update::Notify { title, body } => UpdateView::Notify { title: title@, body: body@ },
            Update::DevicesChanged => UpdateView::DevicesChanged,
        }
    }
}

/// The menu that a session shows.
pub open spec fn menu_of(s: SessionView) -> MenuModelView {
    if session::live(s) {
        model::connected_menu(s.status->0, s.presets)
    } else {
        model::disconnected_menu()
    }
}

/// A connection's session, seeded before subscribing so that the very first
/// render is the real state and later events are deltas on top of it.
pub fn seeded(status: Status, presets: Vec<PresetInfo>) -> (r: Session)
    ensures
        r@ == (SessionView {
            connected: true,
            status: Some(status.deep_view()),
            presets: presets.deep_view(),
        }),
        session::live(r@),
{
    let mut session = Session::new();
    session.set_status(status);
    session.set_presets(presets);
    session
}

/// The update that shows a session.
pub fn model_update(session: &Session) -> (r: Update)
    ensures
        r.deep_view() == UpdateView::Model(menu_of(session@)),
{
    Update::Model(session.menu_model())
}

/// What follows a pushed event.
#[derive(Debug, Clone, PartialEq, Eq)]
pub struct EventStep {
    /// What to hand to the UI thread, in order.
    pub updates: Vec<Update>,
    /// The preset list changed: fetch it anew.
    pub refetch_presets: bool,
}

/// What a pushed event hands to the UI thread: its notification, if it warrants
/// one, the news of a device, and the menu with the event folded in.
pub open spec fn updates_for(s: SessionView, event: Event) -> Seq<UpdateView> {
    let notice = match notify::announced(event) {
        Some((title, body)) => seq![UpdateView::Notify { title, body }],
        None => Seq::empty(),
    };
    let device = if event is DeviceChanged {
        seq![UpdateView::DevicesChanged]
    } else {
        Seq::empty()
    };
    notice + device + seq![UpdateView::Model(menu_of(session::folded(s, event)))]
}

/// Fold a pushed event into the session, and say what follows.
pub fn on_event(session: &mut Session, event: &Event) -> (r: EventStep)
    ensures
        final(session)@ == session::folded(old(session)@, *event),
        r.updates.deep_view() == updates_for(old(session)@, *event),
        r.refetch_presets == (*event is PresetsChanged),
{
    let ghost before = session@;
    let mut updates: Vec<Update> = Vec::new();
    if let Some((title, body)) = notification_for(event) {
        updates.push(Update::Notify { title, body });
    }
    if let Event::DeviceChanged { .. } = event {
        updates.push(Update::DevicesChanged);
    }
    session.apply_event(event);
    updates.push(model_update(session));
    assert(updates.deep_view() =~= updates_for(before, *event));
    EventStep { updates, refetch_presets: matches!(event, Event::PresetsChanged) }
}

/// Put a freshly fetched preset list into the session.
pub fn on_presets(session: &mut Session, presets: Vec<PresetInfo>) -> (r: Update)
    ensures
        final(session)@ == (SessionView { presets: presets.deep_view(), ..old(session)@ }),
        r.deep_view() == UpdateView::Model(menu_of(final(session)@)),
{
    session.set_presets(presets);
    model_update(session)
}

/// The daemon is (now) unreachable: what to show meanwhile, and how many
/// milliseconds to wait before connecting again. A connect that had succeeded
/// resets the backoff so that the next one comes promptly.
pub fn on_disconnect(reconnector: &mut Reconnector, had_connected: bool) -> (r: (Update, u64))
    ensures
        r.0.deep_view() == UpdateView::Model(model::disconnected_menu()),
        r.1 == old(reconnector).curve().delay(
            if had_connected {
                0
            } else {
                old(reconnector).attempts() as nat
            },
        ),
        final(reconnector).curve() == old(reconnector).curve(),
        final(reconnector).attempts() == (if had_connected {
            1
        } else {
            machine::one_more(old(reconnector).attempts())
        }),
{
    if had_connected {
        reconnector.reset();
    }
    let delay: u64 = reconnector.next_delay();
    (Update::Model(MenuModel::disconnected()), delay)
}

/// A seeded connection stays live through any events: the menu it shows last is
/// that of the daemon's state with all of them folded in.
pub proof fn live_menu_follows_events(s: SessionView, events: Seq<Event>)
    requires
        session::live(s),
    ensures
        menu_of(session::folded_all(s, events)) == model::connected_menu(
            session::folded_all(s, events).status->0,
            session::folded_all(s, events).presets,
        ),
        menu_of(session::folded_all(s, events)).connected,
{
    session::events_never_seed(s, events);
}

/// Whatever happens, the menu is redrawn, last of all, from the session with the
/// event folded in; a notification comes exactly for an event that is announced,
/// with its words, and the device list is fetched anew exactly for a device.
pub proof fn events_reach_the_user(s: SessionView, event: Event)
    ensures
        ({
            let updates = updates_for(s, event);
            &&& updates.len() > 0
            &&& updates.last() == UpdateView::Model(menu_of(session::folded(s, event)))
            &&& updates.contains(UpdateView::DevicesChanged) <==> event is DeviceChanged
            &&& forall|title: Seq<char>, body: Seq<char>|
                #[trigger] updates.contains(UpdateView::Notify { title, body })
                    <==> notify::announced(event) == Some((title, body))
            &&& updates.len() <= 2
        }),
{
    let updates = updates_for(s, event);
    if event is DeviceChanged {
        assert(updates[0] == UpdateView::DevicesChanged);
    }
    if let Some((title, body)) = notify::announced(event) {
        assert(updates[0] == UpdateView::Notify { title, body });
    }
}

/// Without a live daemon the menu offers nothing: no command, no preset and no
/// config, and it says that the daemon is away. A session is live exactly while
/// it is connected and has a status.
pub proof fn no_daemon_no_commands(s: SessionView)
    ensures
        session::live(s) <==> s.connected && s.status is Some,
        menu_of(s).connected <==> session::live(s),
        !session::live(s) ==> {
            let menu = menu_of(s);
            &&& menu.icon == model::IconKind::Disconnected
            &&& !menu.caps.start && !menu.caps.stop && !menu.caps.restart
            &&& !menu.caps.pause && !menu.caps.resume
            &&& menu.presets.len() == 0
            &&& menu.active_config is None
            &&& menu.layer_line is None
        },
{
}

} // verus!
