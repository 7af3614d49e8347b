//! The devices window.

use kanatabar::devwin::{error, view, view_with};
use kanatabar::ipc::DeviceInfo;

fn dev(name: &str, matched: bool) -> DeviceInfo {
    DeviceInfo {
        name: name.to_string(),
        matched,
    }
}

#[test]
fn matched_devices_sort_first_then_names_case_insensitively() {
    let view = view(&[
        dev("zsa voyager", false),
        dev("Apple Internal Keyboard", false),
        dev("G502 X", true),
    ]);
    let names: Vec<&str> = view.rows.iter().map(|r| r.name.as_str()).collect();
    assert_eq!(names, ["G502 X", "Apple Internal Keyboard", "zsa voyager"]);
    assert!(view.rows[0].matched);
    assert_eq!(view.error, None);
}

#[test]
fn nameless_devices_get_the_placeholder_and_sort_last() {
    // Real IOHID devices can report
    // no product string — they must render as a dimmed placeholder, not
    // a blank row, and sit below the named devices.
    let view = view(&[
        dev("", false),
        dev("BTM", false),
        dev("   ", false),
        dev("Apple Internal Keyboard", false),
    ]);
    let names: Vec<&str> = view.rows.iter().map(|r| r.name.as_str()).collect();
    assert_eq!(
        names,
        [
            "Apple Internal Keyboard",
            "BTM",
            DeviceInfo::UNNAMED,
            DeviceInfo::UNNAMED
        ]
    );
    assert!(!view.rows[0].unnamed);
    assert!(view.rows[2].unnamed && view.rows[3].unnamed);
    // ... but a matched device still leads, nameless or not.
    let matched = kanatabar::devwin::view(&[dev("BTM", false), dev("", true)]);
    assert_eq!(matched.rows[0].name, DeviceInfo::UNNAMED);
    assert!(matched.rows[0].matched);
    assert_eq!(matched.summary, "2 devices · 1 matched");
}

#[test]
fn summary_counts_devices_and_matches() {
    assert_eq!(
        view(&[dev("a", true), dev("b", false)]).summary,
        "2 devices · 1 matched"
    );
    assert_eq!(view(&[dev("a", false)]).summary, "1 device · none matched");
    assert_eq!(view(&[]).summary, "No input devices visible");
}

#[test]
fn devwin_error_view_carries_the_message_and_no_rows() {
    let view = error("connect failed");
    assert_eq!(view.error.as_deref(), Some("connect failed"));
    assert!(view.rows.is_empty());
}


/// Names are ordered by their lower-case form, so accents and non-ASCII
/// capitals follow their letters too.
#[test]
fn lower_case_is_unicode_lower_case() {
    let view = view(&[dev("Öl", false), dev("öa", false), dev("Zeta", false)]);
    let names: Vec<&str> = view.rows.iter().map(|r| r.name.as_str()).collect();
    assert_eq!(names, ["Zeta", "öa", "Öl"]);
}

/// Devices that compare equal keep the daemon's order.
#[test]
fn equal_names_keep_their_order() {
    let view = view(&[dev("kbd", false), dev("KBD", false), dev("Kbd", false)]);
    let names: Vec<&str> = view.rows.iter().map(|r| r.name.as_str()).collect();
    assert_eq!(names, ["kbd", "KBD", "Kbd"]);
}

#[test]
fn devices_are_named_for_display() {
    assert_eq!(dev(" G502 ", true).display_name(), " G502 ");
    assert_eq!(dev("\t ", true).display_name(), "Unnamed device");
    assert!(dev("", false).is_unnamed());
}

/// The order goes by the names that are given, within what is matched and named.
#[test]
fn rows_follow_the_given_keys() {
    let devices = [dev("a", false), dev("b", false), dev("c", true)];
    let keys = vec!["2".to_string(), "1".to_string(), "3".to_string()];
    let names: Vec<String> = view_with(&devices, &keys)
        .rows
        .into_iter()
        .map(|r| r.name)
        .collect();
    assert_eq!(names, ["c", "b", "a"]);
}
