//! Menu item identity: the stable ids the GUI shell assigns to menu items, and
//! the mapping from a clicked id to the control request it issues.

pub mod ids;

use vstd::prelude::*;

use crate::ipc::RequestPayload;
use crate::text::{self, same, strip_prefix};

verus! {

broadcast use vstd::string::group_string_axioms;

/// A control request that a menu item can issue.
pub enum MenuRequest {
    Start,
    Stop,
    Restart,
    Pause,
    Resume,
    SwitchPreset(Seq<char>),
}

/// The menu request that a payload is.
pub open spec fn menu_request(payload: RequestPayload) -> Option<MenuRequest> {
    match payload {
        RequestPayload::Start => Some(MenuRequest::Start),
        RequestPayload::Stop => Some(MenuRequest::Stop),
        RequestPayload::Restart => Some(MenuRequest::Restart),
        RequestPayload::Pause => Some(MenuRequest::Pause),
        RequestPayload::Resume => Some(MenuRequest::Resume),
        RequestPayload::SwitchPreset { name } => Some(MenuRequest::SwitchPreset(name@)),
        _ => None,
    }
}

/// The request that a clicked id issues.
pub open spec fn request_of(id: Seq<char>) -> Option<MenuRequest> {
    if id == ids::START@ {
        Some(MenuRequest::Start)
    } else if id == ids::STOP@ {
        Some(MenuRequest::Stop)
    } else if id == ids::RESTART@ {
        Some(MenuRequest::Restart)
    } else if id == ids::PAUSE@ {
        Some(MenuRequest::Pause)
    } else if id == ids::RESUME@ {
        Some(MenuRequest::Resume)
    } else {
        match text::after_prefix(id, ids::PRESET_PREFIX@) {
            Some(name) => Some(MenuRequest::SwitchPreset(name)),
            None => None,
        }
    }
}

/// The control request a clicked menu id maps to, or `None` for items handled
/// entirely in the shell (Quit, the disabled status lines, submenu labels).
pub fn payload_for(id: &str) -> (r: Option<RequestPayload>)
    ensures
        match r {
            Some(payload) => request_of(id@) is Some && menu_request(payload) == request_of(id@),
            None => request_of(id@) is None,
        },
{
    if same(id, ids::START) {
        Some(RequestPayload::Start)
    } else if same(id, ids::STOP) {
        Some(RequestPayload::Stop)
    } else if same(id, ids::RESTART) {
        Some(RequestPayload::Restart)
    } else if same(id, ids::PAUSE) {
        Some(RequestPayload::Pause)
    } else if same(id, ids::RESUME) {
        Some(RequestPayload::Resume)
    } else {
        match strip_prefix(id, ids::PRESET_PREFIX) {
            Some(name) => Some(RequestPayload::SwitchPreset { name }),
            None => None,
        }
    }
}

/// The id of a preset's item.
pub open spec fn preset_item(name: Seq<char>) -> Seq<char> {
    ids::PRESET_PREFIX@ + name
}

/// The stable id for a preset item.
pub fn preset_id(name: &str) -> (r: String)
    ensures
        r@ == preset_item(name@),
{
    let mut r = ids::PRESET_PREFIX.to_owned();
    r.append(name);
    r
}

/// Clicking a preset's item switches to that preset, whatever its name.
pub proof fn preset_item_switches(name: Seq<char>)
    ensures
        request_of(preset_item(name)) == Some(MenuRequest::SwitchPreset(name)),
{
    reveal_strlit("start");
    reveal_strlit("stop");
    reveal_strlit("restart");
    reveal_strlit("pause");
    reveal_strlit("resume");
    reveal_strlit("preset:");
    text::prefix_round_trip(ids::PRESET_PREFIX@, name);
    let id = preset_item(name);
    assert(id[0] == 'p' && id[1] == 'r');
    assert(ids::START@[0] == 's' && ids::STOP@[0] == 's' && ids::RESTART@[0] == 'r'
        && ids::PAUSE@[1] == 'a' && ids::RESUME@[0] == 'r');
}

/// The items that the shell handles itself never issue a request.
pub proof fn shell_items_issue_nothing()
    ensures
        request_of(ids::EDIT_CONFIG@) is None,
        request_of(ids::VALIDATE_CONFIG@) is None,
        request_of(ids::DEVICES@) is None,
        request_of(ids::VIEW_LOGS@) is None,
        request_of(ids::LOGIN@) is None,
        request_of(ids::DOCTOR@) is None,
        request_of(ids::WIZARD@) is None,
        request_of(ids::QUIT@) is None,
{
    reveal_strlit("start");
    reveal_strlit("stop");
    reveal_strlit("restart");
    reveal_strlit("pause");
    reveal_strlit("resume");
    reveal_strlit("preset:");
    reveal_strlit("edit-config");
    reveal_strlit("validate-config");
    reveal_strlit("devices");
    reveal_strlit("view-logs");
    reveal_strlit("login");
    reveal_strlit("doctor");
    reveal_strlit("wizard");
    reveal_strlit("quit");
    // None of them starts with the first letter of an id that issues one.
    first_letter_rules_out(ids::EDIT_CONFIG@);
    first_letter_rules_out(ids::VALIDATE_CONFIG@);
    first_letter_rules_out(ids::DEVICES@);
    first_letter_rules_out(ids::VIEW_LOGS@);
    first_letter_rules_out(ids::LOGIN@);
    first_letter_rules_out(ids::DOCTOR@);
    first_letter_rules_out(ids::WIZARD@);
    first_letter_rules_out(ids::QUIT@);
}

proof fn first_letter_rules_out(id: Seq<char>)
    requires
        id.len() > 0,
        id[0] != 's' && id[0] != 'r' && id[0] != 'p',
    ensures
        request_of(id) is None,
{
    reveal_strlit("start");
    reveal_strlit("stop");
    reveal_strlit("restart");
    reveal_strlit("pause");
    reveal_strlit("resume");
    reveal_strlit("preset:");
    if text::begins(id, ids::PRESET_PREFIX@) {
        assert(id.subrange(0, 7)[0] == id[0]);
    }
}

/// Each lifecycle item asks for what it is named: no two of them ask for the same,
/// and nothing but a preset's item switches presets.
pub proof fn items_ask_for_what_they_are_named()
    ensures
        request_of("start"@) == Some(MenuRequest::Start),
        request_of("stop"@) == Some(MenuRequest::Stop),
        request_of("restart"@) == Some(MenuRequest::Restart),
        request_of("pause"@) == Some(MenuRequest::Pause),
        request_of("resume"@) == Some(MenuRequest::Resume),
        forall|id: Seq<char>| #[trigger]
            request_of(id) matches Some(MenuRequest::SwitchPreset(name)) ==> id == "preset:"@
                + name,
{
    reveal_strlit("start");
    reveal_strlit("stop");
    reveal_strlit("restart");
    reveal_strlit("pause");
    reveal_strlit("resume");
    assert("start"@.len() == 5 && "start"@[0] == 's' && "stop"@.len() == 4);
    assert("restart"@.len() == 7 && "pause"@.len() == 5 && "pause"@[0] == 'p');
    assert("resume"@.len() == 6);
    assert forall|id: Seq<char>| (#[trigger] request_of(id)) matches Some(
        MenuRequest::SwitchPreset(name),
    ) ==> id == "preset:"@ + name by {
        let prefix = "preset:"@;
        let n = prefix.len() as int;
        if text::begins(id, prefix) {
            assert(id =~= prefix + id.skip(n)) by {
                assert forall|k: int| 0 <= k < n implies id[k] == prefix[k] by {
                    assert(id.subrange(0, n)[k] == id[k]);
                }
            }
        }
    }
}

/// A clicked item asks for what the command of that name does on the command
/// line.
pub proof fn menu_and_command_line_agree(name: String)
    ensures
        menu_request(crate::cli::Command::Start.request()) == request_of("start"@),
        menu_request(crate::cli::Command::Stop.request()) == request_of("stop"@),
        menu_request(crate::cli::Command::Restart.request()) == request_of("restart"@),
        menu_request(crate::cli::Command::Pause.request()) == request_of("pause"@),
        menu_request(crate::cli::Command::Resume.request()) == request_of("resume"@),
        menu_request((crate::cli::Command::PresetSwitch { name }).request()) == request_of(
            preset_item(name@),
        ),
{
    items_ask_for_what_they_are_named();
    preset_item_switches(name@);
}

} // verus!
