//! The menu: ids, layout, clicks and what the user is told.

use kanatabar::doctor::checks;
use kanatabar::ipc::{DeviceInfo, DoctorCheck, RequestPayload};
use kanatabar::login::{
    after_toggle, default_agent_plist, loaded_args, toggle_args, AGENT_LABEL,
};
use kanatabar::menu::{ids, payload_for, preset_id};
use kanatabar::model::{Capabilities, IconKind, MenuModel, PresetEntry};
use kanatabar::state::SupervisorState;
use kanatabar::tray::{
    build_menu, completion_notice, devices_failed, devices_notice, doctor_failed, doctor_notice,
    on_click, validate_notice, wizard_notice, Click, MenuEntry, WizardNotice, DEVICES_TITLE,
    DOCTOR_TITLE, VALIDATE_TITLE,
};
use kanatabar::vhidd::MANAGER_BINARY;
use kanatabar::wizard::steps;

#[test]
fn lifecycle_ids_map_to_their_requests() {
    assert_eq!(payload_for(ids::START), Some(RequestPayload::Start));
    assert_eq!(payload_for(ids::STOP), Some(RequestPayload::Stop));
    assert_eq!(payload_for(ids::RESTART), Some(RequestPayload::Restart));
    assert_eq!(payload_for(ids::PAUSE), Some(RequestPayload::Pause));
    assert_eq!(payload_for(ids::RESUME), Some(RequestPayload::Resume));
}

#[test]
fn shell_handled_and_unknown_ids_have_no_request() {
    // Quit, the login toggle, doctor, the wizard, and the config/devices/
    // logs items are handled entirely in the shell (they need paths or
    // multi-frame replies, not a single fire-and-forget command).
    assert_eq!(payload_for(ids::QUIT), None);
    assert_eq!(payload_for(ids::LOGIN), None);
    assert_eq!(payload_for(ids::DOCTOR), None);
    assert_eq!(payload_for(ids::WIZARD), None);
    assert_eq!(payload_for(ids::EDIT_CONFIG), None);
    assert_eq!(payload_for(ids::VALIDATE_CONFIG), None);
    assert_eq!(payload_for(ids::DEVICES), None);
    assert_eq!(payload_for(ids::VIEW_LOGS), None);
    assert_eq!(payload_for("status-line"), None);
    assert_eq!(payload_for(""), None);
}

#[test]
fn preset_id_round_trips_to_a_switch_request() {
    let id = preset_id("gaming");
    assert_eq!(id, "preset:gaming");
    assert_eq!(
        payload_for(&id),
        Some(RequestPayload::SwitchPreset {
            name: "gaming".to_string()
        })
    );
}

#[test]
fn preset_name_with_a_colon_is_preserved() {
    // Only the first `preset:` prefix is stripped; the rest is the name.
    let id = preset_id("weird:name");
    assert_eq!(
        payload_for(&id),
        Some(RequestPayload::SwitchPreset {
            name: "weird:name".to_string()
        })
    );
}

#[test]
fn loaded_toggles_to_bootout() {
    let args = toggle_args(
        true,
        501,
        "/Users/x/Library/LaunchAgents/a.plist",
    );
    assert_eq!(
        args,
        vec!["bootout".to_string(), format!("gui/501/{AGENT_LABEL}")]
    );
}

#[test]
fn unloaded_toggles_to_bootstrap_with_the_plist_path() {
    let plist = "/Users/x/Library/LaunchAgents/a.plist";
    let args = toggle_args(false, 501, plist);
    assert_eq!(
        args,
        vec![
            "bootstrap".to_string(),
            "gui/501".to_string(),
            "/Users/x/Library/LaunchAgents/a.plist".to_string(),
        ]
    );
}

#[test]
fn default_agent_plist_matches_the_installer_layout() {
    let path = default_agent_plist("/Users/alice");
    assert_eq!(
        path,
        format!("/Users/alice/Library/LaunchAgents/{AGENT_LABEL}.plist")
    );
}

#[test]
fn the_toggle_is_believed_only_when_it_worked() {
    assert!(after_toggle(false, true));
    assert!(!after_toggle(true, true));
    assert!(!after_toggle(false, false));
    assert!(after_toggle(true, false));
    assert_eq!(loaded_args(501), vec!["print".to_string(), format!("gui/501/{AGENT_LABEL}")]);
}

fn live_model() -> MenuModel {
    MenuModel {
        icon: IconKind::Running,
        connected: true,
        state_line: "State: Running".to_string(),
        layer_line: Some("Layer: nav".to_string()),
        caps: Capabilities::for_state(SupervisorState::Running),
        presets: vec![
            PresetEntry {
                name: "main".to_string(),
                active: true,
            },
            PresetEntry {
                name: "quit".to_string(),
                active: false,
            },
        ],
        active_config: Some("/main.kbd".to_string()),
    }
}

fn ids_of(menu: &[MenuEntry]) -> Vec<(String, bool)> {
    let mut out = Vec::new();
    for entry in menu {
        match entry {
            MenuEntry::Item { id, enabled, .. } => out.push((id.clone(), *enabled)),
            MenuEntry::Check(item) => out.push((item.id.clone(), item.enabled)),
            MenuEntry::Submenu { items, .. } => {
                for item in items {
                    out.push((item.id.clone(), item.enabled));
                }
            }
            MenuEntry::Separator => {}
        }
    }
    out
}

#[test]
fn the_menu_is_laid_out_in_groups() {
    let menu = build_menu(&live_model(), true);
    let ids: Vec<(String, bool)> = ids_of(&menu);
    let expected = [
        ("status", false),
        ("layer", false),
        ("start", false),
        ("stop", true),
        ("restart", true),
        ("pause", true),
        ("resume", false),
        ("preset:main", true),
        ("preset:quit", true),
        ("edit-config", true),
        ("validate-config", true),
        ("devices", true),
        ("view-logs", true),
        ("wizard", true),
        ("doctor", true),
        ("login", true),
        ("quit", true),
    ];
    assert_eq!(ids.len(), expected.len());
    for (got, want) in ids.iter().zip(expected) {
        assert_eq!((got.0.as_str(), got.1), want);
    }
    let presets = menu.iter().find_map(|e| match e {
        MenuEntry::Submenu { title, open, items } => Some((title.as_str(), *open, items)),
        _ => None,
    });
    let (title, open, items) = presets.expect("presets submenu");
    assert_eq!(title, "Presets");
    assert!(open);
    assert!(items[0].checked && !items[1].checked);
    assert!(matches!(&menu[menu.len() - 3], MenuEntry::Check(c) if c.checked));
    assert_eq!(
        menu[menu.len() - 1],
        MenuEntry::Item {
            id: "quit".to_string(),
            label: "Quit KanataBar (daemon keeps running)".to_string(),
            enabled: true,
        }
    );
}

#[test]
fn a_disconnected_menu_keeps_only_what_needs_no_daemon() {
    let menu = build_menu(&MenuModel::disconnected(), false);
    let enabled: Vec<String> = ids_of(&menu)
        .into_iter()
        .filter(|(_, enabled)| *enabled)
        .map(|(id, _)| id)
        .collect();
    assert_eq!(enabled, ["view-logs", "wizard", "doctor", "login", "quit"]);
    assert!(menu
        .iter()
        .any(|e| matches!(e, MenuEntry::Submenu { open: false, .. })));
}

#[test]
fn every_offered_item_does_something() {
    for model in [live_model(), MenuModel::disconnected()] {
        for (id, enabled) in ids_of(&build_menu(&model, false)) {
            if enabled {
                assert_ne!(on_click(&id, &model), Click::Nothing, "{id}");
            }
        }
    }
}

#[test]
fn clicks_are_told_apart() {
    let model = live_model();
    assert_eq!(on_click("quit", &model), Click::Quit);
    assert_eq!(on_click("login", &model), Click::ToggleLogin);
    assert_eq!(
        on_click("edit-config", &model),
        Click::EditConfig("/main.kbd".to_string())
    );
    assert_eq!(
        on_click("validate-config", &model),
        Click::ValidateConfig("/main.kbd".to_string())
    );
    assert_eq!(on_click("devices", &model), Click::ShowDevices);
    assert_eq!(on_click("view-logs", &model), Click::ViewLogs);
    assert_eq!(on_click("doctor", &model), Click::RunDoctor);
    assert_eq!(on_click("wizard", &model), Click::RunWizard);
    assert_eq!(
        on_click("preset:quit", &model),
        Click::Send(RequestPayload::SwitchPreset {
            name: "quit".to_string()
        })
    );
    assert_eq!(on_click("status", &model), Click::Nothing);
    let unconfigured = MenuModel::disconnected();
    assert_eq!(on_click("edit-config", &unconfigured), Click::Nothing);
    assert_eq!(on_click("validate-config", &unconfigured), Click::Nothing);
}

fn check(name: &str, ok: bool) -> DoctorCheck {
    DoctorCheck {
        name: name.to_string(),
        ok,
        detail: "d".to_string(),
        fix_hint: None,
    }
}

#[test]
fn the_doctor_notice_names_what_failed() {
    let green = doctor_notice(&[check("daemon", true)]);
    assert_eq!(green.body, "All checks passed.");
    assert_eq!(green.report, None);
    let red = doctor_notice(&[check("daemon", false), check("supervisor", false)]);
    assert_eq!(red.body, "2 check(s) need attention: daemon, supervisor");
    assert_eq!(
        red.report.as_deref(),
        Some("❌ daemon: d\n❌ supervisor: d\n\n2 check(s) failed.\n")
    );
}

#[test]
fn the_wizard_notice_walks_the_steps() {
    assert_eq!(
        wizard_notice(&[check(checks::DRIVER, false)], None),
        WizardNotice::Step {
            run: Some([MANAGER_BINARY, "activate"]),
            open: steps()[2].open,
            title: "Setup: Activate & approve the extension".to_string(),
            body: steps()[2].instruction,
        }
    );
    assert_eq!(wizard_notice(&[check(checks::DRIVER, true)], None), WizardNotice::Complete);
}

#[test]
fn completion_offers_the_first_config() {
    let files = vec!["laptop.kbd".to_string(), "main.kbd".to_string()];
    assert_eq!(
        completion_notice(Some(0), "/Users/a/.config/kanata", &files),
        (
            "KanataBar is ready",
            "All checks passed. Found your kanata config — add it as a preset to start \
             remapping:\n  kanatactl preset add laptop /Users/a/.config/kanata/laptop.kbd"
                .to_string()
        )
    );
    assert_eq!(
        completion_notice(Some(0), "/Users/a/.config/kanata", &vec![]).1,
        "All checks passed. Add a preset to start remapping:\n  kanatactl preset add <name> \
         <path/to.kbd>"
    );
    for count in [None, Some(1)] {
        assert_eq!(
            completion_notice(count, "/Users/a/.config/kanata", &files),
            (
                "KanataBar Setup",
                "All checks passed — you're set up.".to_string()
            )
        );
    }
}

#[test]
fn devices_and_verdicts_read_as_one_line() {
    let dev = |name: &str, matched: bool| DeviceInfo {
        name: name.to_string(),
        matched,
    };
    assert_eq!(devices_notice(&[]), "No devices recorded yet.");
    assert_eq!(devices_notice(&[dev("a", false)]), "1 device(s); matched: none");
    assert_eq!(
        devices_notice(&[dev("a", true), dev("b", false), dev("c", true)]),
        "3 device(s); matched: a, c"
    );
    // A device without a usable name is listed under the placeholder.
    assert_eq!(
        devices_notice(&[dev("  ", true), dev("", false), dev("b", true)]),
        "3 device(s); matched: Unnamed device, b"
    );
    assert_eq!(devices_failed("gone"), "failed: gone");
    assert_eq!(DEVICES_TITLE, "KanataBar Devices");
    assert_eq!(doctor_failed("gone"), "doctor failed: gone");
    assert_eq!(DOCTOR_TITLE, "KanataBar Doctor");
    assert_eq!(VALIDATE_TITLE, "KanataBar");
    assert_eq!(validate_notice("/a.kbd", None), "Config OK: /a.kbd");
    assert_eq!(validate_notice("/a.kbd", Some("bad")), "Config invalid: bad");
}
