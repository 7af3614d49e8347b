//! The menu-bar shell's decisions: the menu's layout, what a click does, and
//! what the user is told. The shell builds the menu, runs the event loop and
//! carries the actions out.

use vstd::prelude::*;

use crate::doctor::{self, format_failures_summary, format_report};
use crate::ipc::{DeviceInfo, DoctorCheck, RequestPayload};
use crate::kanata::kbd;
use crate::menu::{self, ids, payload_for, preset_id, MenuRequest};
use crate::model::{MenuModel, MenuModelView, PresetEntryView};
use crate::paths;
use crate::state::DegradedReason;
use crate::text::number::{self, push_decimal};
use crate::text::same;
use crate::text::split::{self, join};
use crate::wizard;

verus! {

broadcast use vstd::string::group_string_axioms;

// ── The menu ────────────────────────────────────────────────────────────────

/// A menu item with a checkmark.
#[derive(Debug, Clone, PartialEq, Eq)]
pub struct CheckItem {
    pub id: String,
    pub label: String,
    pub enabled: bool,
    pub checked: bool,
}

/// One entry of the menu.
#[derive(Debug, Clone, PartialEq, Eq)]
pub enum MenuEntry {
    /// An item to click, or a disabled line of text.
    Item {
        id: String,
        label: String,
        enabled: bool,
    },
    /// An item with a checkmark.
    Check(CheckItem),
    /// A submenu of items with checkmarks.
    Submenu {
        title: String,
        open: bool,
        items: Vec<CheckItem>,
    },
    /// A line between groups.
    Separator,
}

/// What a [`CheckItem`] shows.
#[verifier::ext_equal]
pub struct CheckItemView {
    pub id: Seq<char>,
    pub label: Seq<char>,
    pub enabled: bool,
    pub checked: bool,
}

impl DeepView for CheckItem {
    type V = CheckItemView;

    open spec fn deep_view(&self) -> CheckItemView {
        CheckItemView {
            id: self.id@,
            label: self.label@,
            enabled: self.enabled,
            checked: self.checked,
        }
    }
}

/// What a [`MenuEntry`] shows.
#[verifier::ext_equal]
pub enum MenuEntryView {
    Item { id: Seq<char>, label: Seq<char>, enabled: bool },
    Check(CheckItemView),
    Submenu { title: Seq<char>, open: bool, items: Seq<CheckItemView> },
    Separator,
}

impl DeepView for MenuEntry {
    type V = MenuEntryView;

    open spec fn deep_view(&self) -> MenuEntryView {
        match *self {
            MenuEntry::Item { id, label, enabled } => MenuEntryView::Item {
                id: id@,
                label: label@,
                enabled,
            },
            MenuEntry::Check(item) => MenuEntryView::Check(item.deep_view()),
            MenuEntry::Submenu { title, open, items } => MenuEntryView::Submenu {
                title: title@,
                open,
                items: items.deep_view(),
            },
            MenuEntry::Separator => MenuEntryView::Separator,
        }
    }
}

/// An item to click.
pub open spec fn item_view(id: Seq<char>, label: Seq<char>, enabled: bool) -> MenuEntryView {
    MenuEntryView::Item { id, label, enabled }
}

/// A preset's item.
pub open spec fn preset_view(preset: PresetEntryView) -> CheckItemView {
    CheckItemView {
        id: menu::preset_item(preset.name),
        label: preset.name,
        enabled: true,
        checked: preset.active,
    }
}

/// The (disabled) lines at the top: the state, and the layer where one is known.
pub open spec fn status_part(model: MenuModelView) -> Seq<MenuEntryView> {
    let state = seq![item_view("status"@, model.state_line, false)];
    match model.layer_line {
        Some(layer) => state.push(item_view("layer"@, layer, false)),
        None => state,
    }
}

/// The lifecycle controls, enabled as the state allows.
pub open spec fn control_part(model: MenuModelView) -> Seq<MenuEntryView> {
    seq![
        MenuEntryView::Separator,
        item_view(ids::START@, "Start"@, model.caps.start),
        item_view(ids::STOP@, "Stop"@, model.caps.stop),
        item_view(ids::RESTART@, "Restart"@, model.caps.restart),
        MenuEntryView::Separator,
        item_view(ids::PAUSE@, "Pause"@, model.caps.pause),
        item_view(ids::RESUME@, "Resume"@, model.caps.resume),
        MenuEntryView::Separator,
    ]
}

/// The presets, with a checkmark on the active one.
pub open spec fn preset_part(model: MenuModelView) -> Seq<MenuEntryView> {
    seq![
        MenuEntryView::Submenu {
            title: "Presets"@,
            open: model.connected && model.presets.len() > 0,
            items: model.presets.map_values(|p: PresetEntryView| preset_view(p)),
        },
        MenuEntryView::Separator,
    ]
}

/// Everything below: config and inspection, diagnostics and onboarding, the
/// login toggle, and quitting.
pub open spec fn tool_part(model: MenuModelView, login_loaded: bool) -> Seq<MenuEntryView> {
    let has_config = model.active_config is Some;
    seq![
        item_view(ids::EDIT_CONFIG@, "Edit Config"@, has_config),
        item_view(ids::VALIDATE_CONFIG@, "Validate Config"@, has_config),
        item_view(ids::DEVICES@, "Devices…"@, model.connected),
        item_view(ids::VIEW_LOGS@, "View Logs"@, true),
        MenuEntryView::Separator,
        item_view(ids::WIZARD@, "Setup Wizard…"@, true),
        item_view(ids::DOCTOR@, "Run Doctor"@, true),
        MenuEntryView::Separator,
        MenuEntryView::Check(
            CheckItemView {
                id: ids::LOGIN@,
                label: "Launch at Login"@,
                enabled: true,
                checked: login_loaded,
            },
        ),
        MenuEntryView::Separator,
        item_view(ids::QUIT@, "Quit KanataBar (daemon keeps running)"@, true),
    ]
}

/// The whole menu.
pub open spec fn layout(model: MenuModelView, login_loaded: bool) -> Seq<MenuEntryView> {
    status_part(model) + control_part(model) + preset_part(model) + tool_part(model, login_loaded)
}

fn item(id: &str, label: &str, enabled: bool) -> (r: MenuEntry)
    ensures
        r.deep_view() == item_view(id@, label@, enabled),
{
    MenuEntry::Item { id: id.to_owned(), label: label.to_owned(), enabled }
}

fn preset_items(model: &MenuModel) -> (r: Vec<CheckItem>)
    ensures
        r.deep_view() == model.deep_view().presets.map_values(
            |p: PresetEntryView| preset_view(p),
        ),
{
    let ghost all = model.deep_view().presets;
    let mut items: Vec<CheckItem> = Vec::new();
    let mut i: usize = 0;
    while i < model.presets.len()
        invariant
            i <= model.presets@.len(),
            all == model.presets.deep_view(),
            items@.len() == i,
            forall|k: int| 0 <= k < i ==> (#[trigger] items@[k]).deep_view() == preset_view(all[k]),
        decreases model.presets@.len() - i,
    {
        let preset = &model.presets[i];
        assert(all[i as int] == preset.deep_view());
        items.push(
            CheckItem {
                id: preset_id(preset.name.as_str()),
                label: preset.name.clone(),
                enabled: true,
                checked: preset.active,
            },
        );
        i += 1;
    }
    assert(items.deep_view() =~= all.map_values(|p: PresetEntryView| preset_view(p)));
    items
}

/// Translate a [`MenuModel`] into the entries of the menu.
pub fn build_menu(model: &MenuModel, login_loaded: bool) -> (r: Vec<MenuEntry>)
    ensures
        r.deep_view() == layout(model.deep_view(), login_loaded),
{
    let ghost view = model.deep_view();
    let mut menu: Vec<MenuEntry> = Vec::new();
    // Disabled status lines at the top.
    menu.push(item("status", model.state_line.as_str(), false));
    if let Some(layer) = &model.layer_line {
        menu.push(item("layer", layer.as_str(), false));
    }
    assert(menu.deep_view() =~= status_part(view));
    // Lifecycle controls, enabled per the state machine's capabilities.
    menu.push(MenuEntry::Separator);
    menu.push(item(ids::START, "Start", model.caps.start));
    menu.push(item(ids::STOP, "Stop", model.caps.stop));
    menu.push(item(ids::RESTART, "Restart", model.caps.restart));
    menu.push(MenuEntry::Separator);
    menu.push(item(ids::PAUSE, "Pause", model.caps.pause));
    menu.push(item(ids::RESUME, "Resume", model.caps.resume));
    menu.push(MenuEntry::Separator);
    assert(menu.deep_view() =~= status_part(view) + control_part(view));
    // Presets submenu with a checkmark on the active one.
    let items = preset_items(model);
    menu.push(
        MenuEntry::Submenu {
            title: "Presets".to_owned(),
            open: model.connected && model.presets.len() > 0,
            items,
        },
    );
    menu.push(MenuEntry::Separator);
    assert(menu.deep_view() =~= status_part(view) + control_part(view) + preset_part(view));
    // Config & inspection. Edit/Validate need an active preset path.
    let has_config = model.active_config.is_some();
    menu.push(item(ids::EDIT_CONFIG, "Edit Config", has_config));
    menu.push(item(ids::VALIDATE_CONFIG, "Validate Config", has_config));
    menu.push(item(ids::DEVICES, "Devices…", model.connected));
    menu.push(item(ids::VIEW_LOGS, "View Logs", true));
    menu.push(MenuEntry::Separator);
    // Diagnostics & onboarding.
    menu.push(item(ids::WIZARD, "Setup Wizard…", true));
    menu.push(item(ids::DOCTOR, "Run Doctor", true));
    menu.push(MenuEntry::Separator);
    // Per-user agent toggle.
    menu.push(
        MenuEntry::Check(
            CheckItem {
                id: ids::LOGIN.to_owned(),
                label: "Launch at Login".to_owned(),
                enabled: true,
                checked: login_loaded,
            },
        ),
    );
    menu.push(MenuEntry::Separator);
    // Quit the tray only (the daemon keeps running, so say so).
    menu.push(item(ids::QUIT, "Quit KanataBar (daemon keeps running)", true));
    assert(menu.deep_view() =~= layout(view, login_loaded));
    menu
}

// ── Clicks ──────────────────────────────────────────────────────────────────

/// What a click makes the shell do.
#[derive(Debug, Clone, PartialEq, Eq)]
pub enum Click {
    /// Quit the tray only; the daemon keeps kanata running.
    Quit,
    /// Flip "Launch at Login".
    ToggleLogin,
    /// Open the file in the default text editor.
    EditConfig(String),
    /// Have the daemon check the file, and report.
    ValidateConfig(String),
    /// Show the device list.
    ShowDevices,
    /// Open the log directory.
    ViewLogs,
    /// Run `doctor` and show the result.
    RunDoctor,
    /// Run `doctor` and open what the next setup step needs.
    RunWizard,
    /// Send the request to the daemon; the event stream reflects the result.
    Send(RequestPayload),
    /// Nothing.
    Nothing,
}

/// What a [`Click`] stands for.
pub enum ClickView {
    Quit,
    ToggleLogin,
    EditConfig(Seq<char>),
    ValidateConfig(Seq<char>),
    ShowDevices,
    ViewLogs,
    RunDoctor,
    RunWizard,
    Send(MenuRequest),
    Nothing,
}

/// The click stands for this.
pub open spec fn stands_for(click: Click, view: ClickView) -> bool {
    match click {
        Click::Quit => view == ClickView::Quit,
        Click::ToggleLogin => view == ClickView::ToggleLogin,
        Click::EditConfig(path) => view == ClickView::EditConfig(path@),
        Click::ValidateConfig(path) => view == ClickView::ValidateConfig(path@),
        Click::ShowDevices => view == ClickView::ShowDevices,
        Click::ViewLogs => view == ClickView::ViewLogs,
        Click::RunDoctor => view == ClickView::RunDoctor,
        Click::RunWizard => view == ClickView::RunWizard,
        Click::Send(payload) => view matches ClickView::Send(request) && menu::menu_request(
            payload,
        ) == Some(request),
        Click::Nothing => view == ClickView::Nothing,
    }
}

/// What clicking the item with an id does. Editing and validating need an
/// active preset's path.
pub open spec fn click_of(id: Seq<char>, active_config: Option<Seq<char>>) -> ClickView {
    if id == ids::QUIT@ {
        ClickView::Quit
    } else if id == ids::LOGIN@ {
        ClickView::ToggleLogin
    } else if id == ids::EDIT_CONFIG@ {
        match active_config {
            Some(path) => ClickView::EditConfig(path),
            None => ClickView::Nothing,
        }
    } else if id == ids::VALIDATE_CONFIG@ {
        match active_config {
            Some(path) => ClickView::ValidateConfig(path),
            None => ClickView::Nothing,
        }
    } else if id == ids::DEVICES@ {
        ClickView::ShowDevices
    } else if id == ids::VIEW_LOGS@ {
        ClickView::ViewLogs
    } else if id == ids::DOCTOR@ {
        ClickView::RunDoctor
    } else if id == ids::WIZARD@ {
        ClickView::RunWizard
    } else {
        match menu::request_of(id) {
            Some(request) => ClickView::Send(request),
            None => ClickView::Nothing,
        }
    }
}

/// What clicking the item with an id does.
pub fn on_click(id: &str, model: &MenuModel) -> (r: Click)
    ensures
        stands_for(r, click_of(id@, model.deep_view().active_config)),
{
    if same(id, ids::QUIT) {
        Click::Quit
    } else if same(id, ids::LOGIN) {
        Click::ToggleLogin
    } else if same(id, ids::EDIT_CONFIG) {
        match &model.active_config {
            Some(path) => Click::EditConfig(path.clone()),
            None => Click::Nothing,
        }
    } else if same(id, ids::VALIDATE_CONFIG) {
        match &model.active_config {
            Some(path) => Click::ValidateConfig(path.clone()),
            None => Click::Nothing,
        }
    } else if same(id, ids::DEVICES) {
        Click::ShowDevices
    } else if same(id, ids::VIEW_LOGS) {
        Click::ViewLogs
    } else if same(id, ids::DOCTOR) {
        Click::RunDoctor
    } else if same(id, ids::WIZARD) {
        Click::RunWizard
    } else {
        match payload_for(id) {
            Some(payload) => Click::Send(payload),
            None => Click::Nothing,
        }
    }
}

/// The item of the menu can be clicked: it has the id and is enabled.
pub open spec fn offers(entry: MenuEntryView, id: Seq<char>) -> bool {
    match entry {
        MenuEntryView::Item { id: i, label: _, enabled } => enabled && i == id,
        MenuEntryView::Check(item) => item.enabled && item.id == id,
        MenuEntryView::Submenu { title: _, open: _, items } => exists|k: int|
            0 <= k < items.len() && (#[trigger] items[k]).enabled && items[k].id == id,
        MenuEntryView::Separator => false,
    }
}

/// No dead items: whatever the menu offers to click does something.
pub proof fn every_offered_item_acts(
    model: MenuModelView,
    login_loaded: bool,
    i: int,
    id: Seq<char>,
)
    requires
        0 <= i < layout(model, login_loaded).len(),
        offers(layout(model, login_loaded)[i], id),
    ensures
        click_of(id, model.active_config) != ClickView::Nothing,
{
    // An id that issues a request is none of the shell's own.
    menu::shell_items_issue_nothing();
    let top = status_part(model);
    let controls = control_part(model);
    let presets = preset_part(model);
    let entry = layout(model, login_loaded)[i];
    if i < top.len() {
        assert(entry == top[i]);
    } else if i < top.len() + controls.len() {
        let k = i - top.len();
        assert(entry == controls[k]);
        assert(menu::request_of(id) is Some);
    } else if i < top.len() + controls.len() + presets.len() {
        let k = i - top.len() - controls.len();
        assert(entry == presets[k]);
        assert(k == 0);
        let items = model.presets.map_values(|p: PresetEntryView| preset_view(p));
        let j = choose|j: int|
            0 <= j < items.len() && (#[trigger] items[j]).enabled && items[j].id == id;
        menu::preset_item_switches(model.presets[j].name);
        assert(id == menu::preset_item(model.presets[j].name));
    } else {
        let k = i - top.len() - controls.len() - presets.len();
        assert(entry == tool_part(model, login_loaded)[k]);
        reveal_strlit("edit-config");
        reveal_strlit("validate-config");
        reveal_strlit("devices");
        reveal_strlit("view-logs");
        reveal_strlit("doctor");
        reveal_strlit("wizard");
        assert(ids::EDIT_CONFIG@[0] == 'e' && ids::VALIDATE_CONFIG@[1] == 'a'
            && ids::VIEW_LOGS@[1] == 'i' && ids::DEVICES@[0] == 'd' && ids::DOCTOR@[0] == 'd'
            && ids::WIZARD@[0] == 'w');
    }
}

/// Clicking an item does what the item is for: the lifecycle items send their
/// request, the config items act on the active preset's file and on nothing
/// without one, and the others each open or toggle their own thing.
pub proof fn clicks_do_what_items_are_for(config: Option<Seq<char>>)
    ensures
        click_of("start"@, config) == ClickView::Send(menu::MenuRequest::Start),
        click_of("stop"@, config) == ClickView::Send(menu::MenuRequest::Stop),
        click_of("restart"@, config) == ClickView::Send(menu::MenuRequest::Restart),
        click_of("pause"@, config) == ClickView::Send(menu::MenuRequest::Pause),
        click_of("resume"@, config) == ClickView::Send(menu::MenuRequest::Resume),
        click_of("devices"@, config) == ClickView::ShowDevices,
        click_of("view-logs"@, config) == ClickView::ViewLogs,
        click_of("wizard"@, config) == ClickView::RunWizard,
        click_of("doctor"@, config) == ClickView::RunDoctor,
        click_of("quit"@, config) == ClickView::Quit,
        click_of("login"@, config) == ClickView::ToggleLogin,
        click_of("edit-config"@, config) == (match config {
            Some(path) => ClickView::EditConfig(path),
            None => ClickView::Nothing,
        }),
        click_of("validate-config"@, config) == (match config {
            Some(path) => ClickView::ValidateConfig(path),
            None => ClickView::Nothing,
        }),
        forall|name: Seq<char>| #[trigger]
            click_of("preset:"@ + name, config) == ClickView::Send(
                menu::MenuRequest::SwitchPreset(name),
            ),
{
    menu::items_ask_for_what_they_are_named();
    reveal_strlit("start");
    reveal_strlit("stop");
    reveal_strlit("restart");
    reveal_strlit("pause");
    reveal_strlit("resume");
    reveal_strlit("edit-config");
    reveal_strlit("validate-config");
    reveal_strlit("devices");
    reveal_strlit("view-logs");
    reveal_strlit("login");
    reveal_strlit("doctor");
    reveal_strlit("wizard");
    reveal_strlit("quit");
    reveal_strlit("preset:");
    assert(ids::QUIT@[0] == 'q' && ids::LOGIN@[0] == 'l' && ids::EDIT_CONFIG@[0] == 'e');
    assert(ids::VALIDATE_CONFIG@[0] == 'v' && ids::VALIDATE_CONFIG@[1] == 'a');
    assert(ids::VIEW_LOGS@[0] == 'v' && ids::VIEW_LOGS@[1] == 'i' && ids::WIZARD@[0] == 'w');
    assert(ids::DEVICES@[0] == 'd' && ids::DEVICES@[1] == 'e');
    assert(ids::DOCTOR@[0] == 'd' && ids::DOCTOR@[1] == 'o');
    assert("start"@[0] == 's' && "stop"@[0] == 's' && "restart"@[0] == 'r');
    assert("pause"@[0] == 'p' && "resume"@[0] == 'r');
    assert forall|name: Seq<char>| #[trigger]
        click_of("preset:"@ + name, config) == ClickView::Send(
        menu::MenuRequest::SwitchPreset(name),
    ) by {
        menu::preset_item_switches(name);
        assert(("preset:"@ + name)[0] == 'p');
    }
}

/// Every item is there under its label, with the id that does what the label
/// says, and is enabled exactly when that can be done: the lifecycle items as the
/// commands are available, the config items while a preset is active, the device
/// list while the daemon answers, and the rest always. The login item is checked
/// exactly while the agent is loaded.
pub proof fn the_menu_offers_every_command(model: MenuModelView, login_loaded: bool)
    ensures
        layout(model, login_loaded).contains(
            item_view("start"@, "Start"@, model.caps.start),
        ),
        layout(model, login_loaded).contains(
            item_view("stop"@, "Stop"@, model.caps.stop),
        ),
        layout(model, login_loaded).contains(
            item_view("restart"@, "Restart"@, model.caps.restart),
        ),
        layout(model, login_loaded).contains(
            item_view("pause"@, "Pause"@, model.caps.pause),
        ),
        layout(model, login_loaded).contains(
            item_view("resume"@, "Resume"@, model.caps.resume),
        ),
        layout(model, login_loaded).contains(
            item_view("edit-config"@, "Edit Config"@, model.active_config is Some),
        ),
        layout(model, login_loaded).contains(
            item_view("validate-config"@, "Validate Config"@, model.active_config is Some),
        ),
        layout(model, login_loaded).contains(
            item_view("devices"@, "Devices…"@, model.connected),
        ),
        layout(model, login_loaded).contains(
            item_view("view-logs"@, "View Logs"@, true),
        ),
        layout(model, login_loaded).contains(
            item_view("wizard"@, "Setup Wizard…"@, true),
        ),
        layout(model, login_loaded).contains(
            item_view("doctor"@, "Run Doctor"@, true),
        ),
        layout(model, login_loaded).contains(
            item_view("quit"@, "Quit KanataBar (daemon keeps running)"@, true),
        ),
        layout(model, login_loaded).contains(
            MenuEntryView::Check(
                CheckItemView {
                    id: "login"@,
                    label: "Launch at Login"@,
                    enabled: true,
                    checked: login_loaded,
                },
            ),
        ),
        layout(model, login_loaded)[0] == item_view("status"@, model.state_line, false),
        model.layer_line matches Some(layer) ==> layout(model, login_loaded)[1] == item_view(
            "layer"@,
            layer,
            false,
        ),
{
    let all = layout(model, login_loaded);
    let n = status_part(model).len() as int;
    let p = n + control_part(model).len();
    let t = p + preset_part(model).len();
    assert(forall|k: int| 0 <= k < 8 ==> all[n + k] == #[trigger] control_part(model)[k]);
    assert(forall|k: int|
        0 <= k < 11 ==> all[t + k] == #[trigger] tool_part(model, login_loaded)[k]);
    assert(all[n + 1] == item_view("start"@, "Start"@, model.caps.start));
    assert(all[n + 2] == item_view("stop"@, "Stop"@, model.caps.stop));
    assert(all[n + 3] == item_view("restart"@, "Restart"@, model.caps.restart));
    assert(all[n + 5] == item_view("pause"@, "Pause"@, model.caps.pause));
    assert(all[n + 6] == item_view("resume"@, "Resume"@, model.caps.resume));
    assert(all[t + 0] == item_view("edit-config"@, "Edit Config"@, model.active_config is Some));
    assert(all[t + 1] == item_view("validate-config"@, "Validate Config"@, model.active_config is Some));
    assert(all[t + 2] == item_view("devices"@, "Devices…"@, model.connected));
    assert(all[t + 3] == item_view("view-logs"@, "View Logs"@, true));
    assert(all[t + 5] == item_view("wizard"@, "Setup Wizard…"@, true));
    assert(all[t + 6] == item_view("doctor"@, "Run Doctor"@, true));
    assert(all[t + 10] == item_view("quit"@, "Quit KanataBar (daemon keeps running)"@, true));
    assert(all[t + 8] == tool_part(model, login_loaded)[8]);
}

/// The presets stand in one submenu, in order, each under its own name, checked
/// exactly when it is active, and clicking it switches to it.
pub proof fn presets_are_offered(
    model: MenuModelView,
    login_loaded: bool,
    config: Option<Seq<char>>,
) -> (at: int)
    ensures
        0 <= at < layout(model, login_loaded).len(),
        layout(model, login_loaded)[at] matches MenuEntryView::Submenu { title, open, items } && {
            &&& title == "Presets"@
            &&& open <==> model.connected && model.presets.len() > 0
            &&& items.len() == model.presets.len()
            &&& forall|i: int|
                0 <= i < items.len() ==> {
                    &&& (#[trigger] items[i]).label == model.presets[i].name
                    &&& items[i].checked == model.presets[i].active
                    &&& items[i].enabled
                    &&& click_of(items[i].id, config) == ClickView::Send(
                        menu::MenuRequest::SwitchPreset(model.presets[i].name),
                    )
                }
        },
{
    let at = (status_part(model).len() + control_part(model).len()) as int;
    let all = layout(model, login_loaded);
    assert(all[at] == preset_part(model)[0]);
    clicks_do_what_items_are_for(config);
    let items = model.presets.map_values(|p: PresetEntryView| preset_view(p));
    assert forall|i: int| 0 <= i < items.len() implies click_of(
        (#[trigger] items[i]).id,
        config,
    ) == ClickView::Send(menu::MenuRequest::SwitchPreset(model.presets[i].name)) by {
        assert(items[i].id == "preset:"@ + model.presets[i].name);
    }
    at
}

/// "Edit Config" and "Validate Config" act on the file of the preset that the
/// daemon reports as active, and on none while no preset is.
pub proof fn config_items_act_on_the_active_preset(
    status: crate::ipc::StatusView,
    presets: Seq<crate::ipc::PresetInfoView>,
)
    ensures
        ({
            let config = crate::model::connected_menu(status, presets).active_config;
            &&& click_of("edit-config"@, config) matches ClickView::EditConfig(path) ==> exists|
                i: int,
            |
                0 <= i < presets.len() && (#[trigger] presets[i]).active && presets[i].config
                    == path && forall|j: int| 0 <= j < i ==> !(#[trigger] presets[j]).active
            &&& click_of("validate-config"@, config) matches ClickView::ValidateConfig(path)
                ==> exists|i: int|
                0 <= i < presets.len() && (#[trigger] presets[i]).active && presets[i].config
                    == path && forall|j: int| 0 <= j < i ==> !(#[trigger] presets[j]).active
            &&& (exists|i: int| 0 <= i < presets.len() && (#[trigger] presets[i]).active)
                <==> click_of("edit-config"@, config) != ClickView::Nothing
        }),
{
    crate::model::active_config_is_the_active_preset(status, presets);
    clicks_do_what_items_are_for(
        crate::model::connected_menu(status, presets).active_config,
    );
}

// ── What the user is told ───────────────────────────────────────────────────

/// What "Run Doctor" shows.
#[derive(Debug, Clone, PartialEq, Eq)]
pub struct DoctorNotice {
    /// The notification's body.
    pub body: String,
    /// The full report to open in a text viewer: the tray has no terminal.
    pub report: Option<String>,
}

/// What "Run Doctor" shows of a report: a headline when all is green; else the
/// failing checks by name, and the full report with details and fix hints.
pub fn doctor_notice(checks: &[DoctorCheck]) -> (r: DoctorNotice)
    ensures
        doctor::passed(checks@) ==> r.body@ == "All checks passed."@ && r.report is None,
        !doctor::passed(checks@) ==> r.body@ == doctor::summary(doctor::failed_names(checks@))
            && r.report.deep_view() == Some(doctor::report(checks@)),
{
    proof {
        doctor::passed_iff_none_failed(checks@);
    }
    match format_failures_summary(checks) {
        None => DoctorNotice { body: "All checks passed.".to_owned(), report: None },
        Some(summary) => DoctorNotice { body: summary, report: Some(format_report(checks)) },
    }
}

/// What "Setup Wizard…" does.
#[derive(Debug, Clone, PartialEq, Eq)]
pub enum WizardNotice {
    /// Run and open what the step needs, and show its instruction.
    Step {
        run: Option<[&'static str; 2]>,
        open: Option<&'static str>,
        title: String,
        body: &'static str,
    },
    /// Setup is complete.
    Complete,
}

/// What "Setup Wizard…" does: the next step that is not done, if any. The
/// checklist alone can miss runtime-only failures, so the supervisor's
/// structured reason counts too.
pub fn wizard_notice(
    checks: &[DoctorCheck],
    degraded: Option<DegradedReason>,
) -> (r: WizardNotice)
    ensures
        match wizard::next_step(checks@, degraded, 0) {
            Some(i) => r matches WizardNotice::Step { run, open, title, body } && {
                &&& run is Some <==> wizard::step_runs(i as int)
                &&& run matches Some(command) ==> command == wizard::ACTIVATE_DRIVER_CMD
                &&& wizard::text_of(open) == wizard::step_open(i as int)
                &&& title@ == "Setup: "@ + wizard::TITLES@[i as int]@
                &&& body@ == wizard::INSTRUCTIONS@[i as int]@
            },
            None => r is Complete,
        },
{
    match wizard::first_unsatisfied(checks, degraded) {
        Some(step) => {
            let mut title = "Setup: ".to_owned();
            title.append(step.title);
            WizardNotice::Step { run: step.run, open: step.open, title, body: step.instruction }
        },
        None => WizardNotice::Complete,
    }
}

/// The title over what the checklist has to say.
pub const DOCTOR_TITLE: &'static str = "KanataBar Doctor";

/// The title over the device list.
pub const DEVICES_TITLE: &'static str = "KanataBar Devices";

/// The title over the verdict of "Validate Config".
pub const VALIDATE_TITLE: &'static str = "KanataBar";

/// What precedes the command that would add the user's own config.
pub const FOUND_YOUR_CONFIG: &'static str =
    "All checks passed. Found your kanata config — add it as a preset to start remapping:\n  kanatactl preset add ";

/// What is said when there is no config to start from.
pub const ADD_YOUR_PRESET: &'static str =
    "All checks passed. Add a preset to start remapping:\n  kanatactl preset add <name> <path/to.kbd>";

/// The wizard's terminal message: title and body. All checks pass; if no preset
/// is configured, offer to import an existing config (`files` are the `.kbd`
/// files in the user's config directory `dir`), otherwise show how to add one.
/// Where the presets could not be fetched, don't nag: assume set up.
pub fn completion_notice(
    preset_count: Option<usize>,
    dir: &str,
    files: &Vec<String>,
) -> (r: (&'static str, String))
    ensures
        preset_count != Some(0usize) ==> r.0@ == "KanataBar Setup"@ && r.1@
            == "All checks passed — you're set up."@,
        preset_count == Some(0usize) ==> r.0@ == "KanataBar is ready"@ && r.1@ == (if files@.len()
            == 0 {
            ADD_YOUR_PRESET@
        } else {
            FOUND_YOUR_CONFIG@ + kbd::stem_of(files@[0]@) + " "@ + paths::joined(
                dir@,
                files@[0]@,
            )
        }),
{
    if !matches!(preset_count, Some(0)) {
        return ("KanataBar Setup", "All checks passed — you're set up.".to_owned());
    }
    if files.len() == 0 {
        return ("KanataBar is ready", ADD_YOUR_PRESET.to_owned());
    }
    let first = files[0].as_str();
    let mut body = FOUND_YOUR_CONFIG.to_owned();
    body.append(kbd::stem(first).as_str());
    body.append(" ");
    body.append(paths::join(dir, first).as_str());
    ("KanataBar is ready", body)
}

/// The names of the matched devices as they are displayed, in order.
pub open spec fn matched_names(devices: Seq<DeviceInfo>) -> Seq<Seq<char>>
    decreases devices.len(),
{
    if devices.len() == 0 {
        Seq::empty()
    } else if devices.last().matched {
        matched_names(devices.drop_last()).push(devices.last().shown())
    } else {
        matched_names(devices.drop_last())
    }
}

/// The device list as a notification, for when no window can be shown.
pub fn devices_notice(devices: &[DeviceInfo]) -> (r: String)
    ensures
        r@ == (if devices@.len() == 0 {
            "No devices recorded yet."@
        } else {
            number::decimal(devices@.len()) + " device(s); matched: "@ + (if matched_names(
                devices@,
            ).len() == 0 {
                "none"@
            } else {
                split::joined(matched_names(devices@), ", "@)
            })
        }),
{
    if devices.len() == 0 {
        return "No devices recorded yet.".to_owned();
    }
    let mut names: Vec<String> = Vec::new();
    let mut i: usize = 0;
    assert(names.deep_view() =~= Seq::<Seq<char>>::empty());
    while i < devices.len()
        invariant
            i <= devices@.len(),
            names.deep_view() == matched_names(devices@.take(i as int)),
        decreases devices@.len() - i,
    {
        let ghost before = names.deep_view();
        assert(devices@.take(i + 1).drop_last() =~= devices@.take(i as int));
        if devices[i].matched {
            names.push(devices[i].display_name().to_owned());
            assert(names.deep_view() =~= before.push(devices@[i as int].shown()));
        }
        i += 1;
    }
    assert(devices@.take(i as int) =~= devices@);
    assert(names.deep_view().len() == names@.len());
    let mut out = String::new();
    push_decimal(&mut out, devices.len() as u64);
    out.append(" device(s); matched: ");
    let ghost head = out@;
    assert(head =~= number::decimal(devices@.len()) + " device(s); matched: "@);
    if names.len() == 0 {
        out.append("none");
    } else {
        out.append(join(&names, ", ").as_str());
    }
    out
}

/// The notification for a checklist that could not be fetched.
pub fn doctor_failed(error: &str) -> (r: String)
    ensures
        r@ == "doctor failed: "@ + error@,
{
    let mut r = "doctor failed: ".to_owned();
    r.append(error);
    r
}

/// The notification for a device list that could not be fetched.
pub fn devices_failed(error: &str) -> (r: String)
    ensures
        r@ == "failed: "@ + error@,
{
    let mut r = "failed: ".to_owned();
    r.append(error);
    r
}

/// The verdict of "Validate Config": `error` is the daemon's message where it
/// refused the file.
pub fn validate_notice(path: &str, error: Option<&str>) -> (r: String)
    ensures
        r@ == (match error {
            None => "Config OK: "@ + path@,
            Some(message) => "Config invalid: "@ + message@,
        }),
{
    match error {
        None => {
            let mut r = "Config OK: ".to_owned();
            r.append(path);
            r
        },
        Some(message) => {
            let mut r = "Config invalid: ".to_owned();
            r.append(message);
            r
        },
    }
}

/// The matched names are those of the matched devices, one for each, as they are
/// displayed and in order.
pub proof fn matched_names_are_of_matched_devices(devices: Seq<DeviceInfo>)
    ensures
        matched_names(devices) == devices.filter(|d: DeviceInfo| d.matched).map_values(
            |d: DeviceInfo| d.shown(),
        ),
    decreases devices.len(),
{
    let matched = |d: DeviceInfo| d.matched;
    let shown = |d: DeviceInfo| d.shown();
    reveal(Seq::filter);
    if devices.len() > 0 {
        matched_names_are_of_matched_devices(devices.drop_last());
        let before = devices.drop_last().filter(matched);
        if devices.last().matched {
            assert(before.push(devices.last()).map_values(shown) =~= before.map_values(shown).push(
                devices.last().shown(),
            ));
        }
    } else {
        assert(devices.filter(matched).map_values(shown) =~= Seq::empty());
    }
}

} // verus!
