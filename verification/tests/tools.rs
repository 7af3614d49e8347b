//! What the outside tools print: kanata, `systemextensionsctl`, `launchctl`.

use kanatabar::driver::{
    parse_driver_version, parse_systemextensions, supported_driver_major, DriverState,
};
use kanatabar::kanata::kbd::{kbd_files, stem};
use kanatabar::kanata::layer::layer_in;
use kanatabar::kanata::{
    alt_kanata_locations, classify_backend_line, classify_fault_line, is_vhid_status_noise,
    kanata_config_dir, parse_layer_change, parse_version, BackendEvent, StderrFault, Version,
    KANATA_BIN_CANDIDATES,
};
use kanatabar::vhidd::{classify, parse_launchctl_list, should_install, VhiddManagement};

#[test]
fn alt_locations_include_cargo_and_macports() {
    let alts = alt_kanata_locations("/Users/alice");
    assert!(alts.contains(&"/Users/alice/.cargo/bin/kanata".to_string()));
    assert!(alts.contains(&"/opt/local/bin/kanata".to_string()));
    // Never overlaps the auto-trusted allowlist (those are handled first).
    for alt in &alts {
        assert!(!KANATA_BIN_CANDIDATES.contains(&alt.as_str()));
    }
}

#[test]
fn kanata_config_dir_is_the_xdg_convention() {
    assert_eq!(
        kanata_config_dir("/Users/alice"),
        "/Users/alice/.config/kanata".to_string()
    );
}

#[test]
fn parses_plain_version() {
    assert_eq!(parse_version("kanata 1.7.0"), Some(Version::new(1, 7, 0)));
}

#[test]
fn parses_version_with_trailing_text() {
    assert_eq!(
        parse_version("kanata 1.8.1 (some build info)"),
        Some(Version::new(1, 8, 1))
    );
}

#[test]
fn parses_two_component_version() {
    assert_eq!(parse_version("kanata 1.9"), Some(Version::new(1, 9, 0)));
}

#[test]
fn parses_prerelease_patch() {
    assert_eq!(
        parse_version("kanata 1.7.0-prerelease"),
        Some(Version::new(1, 7, 0))
    );
}

#[test]
fn no_version_returns_none() {
    assert_eq!(parse_version("kanata unknown"), None);
    assert_eq!(parse_version(""), None);
}

#[test]
fn version_ordering_supports_floor() {
    let floor = Version::new(1, 7, 0);
    assert!(parse_version("kanata 1.6.0").unwrap() < floor);
    assert!(parse_version("kanata 1.7.0").unwrap() >= floor);
    assert!(parse_version("kanata 1.8.1").unwrap() >= floor);
}

#[test]
fn classifies_input_monitoring_denial() {
    assert_eq!(
        classify_fault_line("IOHIDDeviceOpen error: (iokit/common) privilege violation"),
        Some(StderrFault::PermissionDenied)
    );
    assert_eq!(
        classify_fault_line("IOHIDDeviceOpen error: (iokit/common) not permitted"),
        Some(StderrFault::PermissionDenied)
    );
    // The friendlier wording contains none of the older patterns.
    assert_eq!(
        classify_fault_line(
            "failed to open keyboard device(s): kanata needs macOS Input Monitoring \
             permission. Enable kanata in System Settings -> Privacy & Security -> \
             Input Monitoring, then re-run kanata."
        ),
        Some(StderrFault::PermissionDenied)
    );
}

#[test]
fn classifies_device_in_use() {
    assert_eq!(
        classify_fault_line("IOHIDDeviceOpen error: exclusive access and device already open"),
        Some(StderrFault::DeviceInUse)
    );
}

#[test]
fn classifies_tcp_port_conflict() {
    assert_eq!(
        classify_fault_line(
            r#"TCP server starts: Os { code: 48, kind: AddrInUse, message: "Address already in use" }"#
        ),
        Some(StderrFault::PortInUse)
    );
    // "already in use" for a *device* must not classify as a port issue
    // (it contains neither "address" nor "AddrInUse").
    assert_eq!(
        classify_fault_line("device already in use by another process"),
        None
    );
}

#[test]
fn ordinary_output_is_not_a_fault() {
    assert_eq!(classify_fault_line("kanata v1.12.0 starting"), None);
    // The generic follow-up line alone is not specific enough to classify.
    assert_eq!(
        classify_fault_line("failed to open keyboard device(s): Couldn't register any device"),
        None
    );
    assert_eq!(classify_fault_line(""), None);
}

#[test]
fn classifies_backend_release_as_down() {
    // A driver protocol mismatch: kanata alive, keys unmapped.
    assert_eq!(
        classify_backend_line("output backend unavailable — releasing input devices"),
        Some(BackendEvent::Down)
    );
    assert_eq!(
        classify_backend_line(
            "output backend not ready after 10s. Key output may fail until the \
             backend recovers."
        ),
        Some(BackendEvent::Down)
    );
    // The real release line combines "during write" with the release
    // clause. Unlike the bare "during write" transient blip (which is
    // None, see `transient_write_blips_are_not_backend_events`), this one
    // releases the devices, so it must classify as Down.
    assert_eq!(
        classify_backend_line(
            "output backend unavailable during write — releasing input devices"
        ),
        Some(BackendEvent::Down)
    );
}

#[test]
fn classifies_backend_recovery_as_up() {
    assert_eq!(
        classify_backend_line(
            "output backend and console session ready — re-grabbing input devices"
        ),
        Some(BackendEvent::Up)
    );
}

#[test]
fn screen_lock_release_is_not_a_backend_event() {
    // kanata releases devices on every screen lock / fast user switch —
    // normal and self-recovering, never a Degraded trigger.
    assert_eq!(
        classify_backend_line(
            "console session paused (lock/user-switch) — releasing input devices"
        ),
        None
    );
    assert_eq!(classify_backend_line("console session restored"), None);
}

#[test]
fn transient_write_blips_are_not_backend_events() {
    // kanata absorbs these without releasing the devices.
    assert_eq!(
        classify_backend_line("output backend unavailable during write"),
        None
    );
    assert_eq!(
        classify_backend_line("+: output backend unavailable (will recover)"),
        None
    );
}

#[test]
fn ordinary_output_is_not_a_backend_event() {
    assert_eq!(
        classify_backend_line("keyboard grabbed, entering event processing loop"),
        None
    );
    assert_eq!(
        classify_backend_line("Waiting for DriverKit virtual keyboard... (2.0s/10.0s)"),
        None
    );
    assert_eq!(classify_backend_line(""), None);
}

#[test]
fn vhid_status_heartbeat_is_noise() {
    // Raw (unprefixed) driver-status lines, about one a second.
    assert!(is_vhid_status_noise("virtual_hid_keyboard_ready true"));
    assert!(is_vhid_status_noise("virtual_hid_keyboard_ready false"));
    assert!(is_vhid_status_noise("connected"));
    assert!(is_vhid_status_noise("driver activated: true"));
    assert!(is_vhid_status_noise("driver connected: true"));
    assert!(is_vhid_status_noise("driver version matched: true"));
    // Trailing whitespace from the pipe must not defeat the match.
    assert!(is_vhid_status_noise("virtual_hid_keyboard_ready true\r"));
}

#[test]
fn real_log_lines_are_not_noise() {
    // kanata's genuine log lines carry a timestamp + [LEVEL] prefix.
    assert!(!is_vhid_status_noise(
        "17:05:04.2338 [INFO] Starting kanata proper"
    ));
    // Backend-health and fault lines must never be downgraded.
    assert!(!is_vhid_status_noise(
        "output backend unavailable — releasing input devices"
    ));
    assert!(!is_vhid_status_noise(
        "output backend and console session ready — re-grabbing input devices"
    ));
    assert!(!is_vhid_status_noise(
        "console session paused (lock/user-switch) — releasing input devices"
    ));
    // Unexpected driver states are diagnostic, not heartbeat.
    assert!(!is_vhid_status_noise("driver activated: false"));
    assert!(!is_vhid_status_noise("driver version matched: false"));
    assert!(!is_vhid_status_noise(""));
}

#[test]
fn parses_layer_change() {
    assert_eq!(
        parse_layer_change(r#"{"LayerChange":{"new":"nav"}}"#),
        Some("nav".to_string())
    );
}

#[test]
fn ignores_other_messages() {
    assert_eq!(
        parse_layer_change(r#"{"LayerNames":{"names":["base"]}}"#),
        None
    );
    assert_eq!(parse_layer_change("not json"), None);
    assert_eq!(parse_layer_change(r#"{"LayerChange":{}}"#), None);
}

#[test]
fn versions_print_and_compare_by_component() {
    assert_eq!(Version::new(1, 12, 3).to_text(), "1.12.3");
    assert!(Version::new(1, 9, 9) < Version::new(1, 10, 0));
    assert!(Version::new(2, 0, 0) > Version::new(1, 99, 99));
    assert_eq!(parse_version("kanata (v3.4.5-rc1)"), Some(Version::new(3, 4, 5)));
    assert_eq!(parse_version("99999999999.1"), None);
}

/// A written version is read back, alone and after the program's name, with a
/// `v` before it, a suffix behind it, and anything after that.
#[test]
fn versions_read_back() {
    for v in [
        Version::new(0, 0, 0),
        Version::new(1, 12, 0),
        Version::new(u32::MAX, 10, 900),
    ] {
        assert_eq!(parse_version(&v.to_text()), Some(v));
        for word in [
            v.to_text(),
            format!("v{}", v.to_text()),
            format!("{}-pre.2", v.to_text()),
            format!("vv{}.7", v.to_text()),
        ] {
            assert_eq!(parse_version(&word), Some(v));
            assert_eq!(parse_version(&format!("kanata {word}")), Some(v));
            assert_eq!(parse_version(&format!("kanata {word} (built 2.3.4)")), Some(v));
            assert_eq!(parse_version(&format!("the kanata build\t({word})")), Some(v));
        }
        let short = Version::new(v.major, v.minor, 0);
        assert_eq!(parse_version(&format!("{}.{}", v.major, v.minor)), Some(short));
    }
}

/// Heartbeat noise is no fault and no backend event.
#[test]
fn noise_is_no_signal() {
    for line in [
        "virtual_hid_keyboard_ready true",
        "  virtual_hid_keyboard_ready false\r",
        "connected",
        "driver activated: true\t",
        "driver connected: true",
        "driver version matched: true",
    ] {
        assert!(is_vhid_status_noise(line));
        assert_eq!(classify_fault_line(line), None);
        assert_eq!(classify_backend_line(line), None);
    }
}

#[test]
fn layers_are_found_in_a_parsed_message() {
    let message = |text: &str| -> serde_json::Value { serde_json::from_str(text).expect("json") };
    assert_eq!(
        layer_in(&message(r#"{"LayerChange":{"new":"nav"}}"#)),
        Some("nav".to_string())
    );
    assert_eq!(layer_in(&message(r#"{"LayerChange":{"old":"nav"}}"#)), None);
    assert_eq!(layer_in(&message(r#"["LayerChange"]"#)), None);
    assert_eq!(layer_in(&serde_json::Value::from("LayerChange")), None);
}

/// The layer's name is what the document holds, escapes resolved: not the text
/// between the quotes.
#[test]
fn layer_names_are_read_from_the_document() {
    assert_eq!(
        parse_layer_change(r#" { "Other": 1, "LayerChange": { "new": "n\u0061v\t" } } "#),
        Some("nav\t".to_string())
    );
    assert_eq!(parse_layer_change(r#"{"LayerChange":{"new":7}}"#), None);
    assert_eq!(parse_layer_change(r#"{"LayerChange":"new"}"#), None);
    assert_eq!(parse_layer_change(r#"{"LayerChange":{"new":"a"}"#), None);
}

#[test]
fn kbd_files_are_picked_and_sorted() {
    let names: Vec<String> = ["z.kbd", ".kbd", "notes.txt", "a.b.kbd", "kbd", "A.kbd"]
        .iter()
        .map(|s| s.to_string())
        .collect();
    assert_eq!(kbd_files(&names), vec!["A.kbd", "a.b.kbd", "z.kbd"]);
    assert_eq!(stem("a.b.kbd"), "a.b");
    assert_eq!(stem("main.kbd"), "main");
}

// Captured `systemextensionsctl list` outputs.

const ACTIVATED: &str = "\
1 extension(s)
--- com.apple.system_extension.driver_extension
enabled\tactive\tteamID\tbundleID (version)\tname\t[state]
*\t*\tX2WJ2XB2YT\torg.pqrs.Karabiner-DriverKit-VirtualHIDDevice (5.0.0/5.0.0)\tKarabiner-DriverKit-VirtualHIDDevice\t[activated enabled]
";

const WAITING_FOR_USER: &str = "\
1 extension(s)
--- com.apple.system_extension.driver_extension
enabled\tactive\tteamID\tbundleID (version)\tname\t[state]
\t\tX2WJ2XB2YT\torg.pqrs.Karabiner-DriverKit-VirtualHIDDevice (5.0.0/5.0.0)\tKarabiner-DriverKit-VirtualHIDDevice\t[activated waiting for user]
";

const TERMINATED: &str = "\
1 extension(s)
--- com.apple.system_extension.driver_extension
enabled\tactive\tteamID\tbundleID (version)\tname\t[state]
\t\tX2WJ2XB2YT\torg.pqrs.Karabiner-DriverKit-VirtualHIDDevice (5.0.0/5.0.0)\tKarabiner-DriverKit-VirtualHIDDevice\t[terminated waiting to uninstall on reboot]
";

const NO_KARABINER: &str = "\
1 extension(s)
--- com.apple.system_extension.driver_extension
enabled\tactive\tteamID\tbundleID (version)\tname\t[state]
*\t*\tABCDE12345\tcom.example.OtherDriver (1.0/1.0)\tOtherDriver\t[activated enabled]
";

const EMPTY: &str = "0 extension(s)\n";

#[test]
fn detects_activated_enabled() {
    assert_eq!(
        parse_systemextensions(ACTIVATED),
        DriverState::ActivatedEnabled
    );
    assert!(parse_systemextensions(ACTIVATED).is_ready());
}

#[test]
fn detects_waiting_for_user() {
    let state = parse_systemextensions(WAITING_FOR_USER);
    assert_eq!(
        state,
        DriverState::Present {
            state: "activated waiting for user".into()
        }
    );
    assert!(!state.is_ready());
    assert!(state.message().contains("Privacy & Security"));
}

#[test]
fn detects_terminated() {
    assert_eq!(
        parse_systemextensions(TERMINATED),
        DriverState::Present {
            state: "terminated waiting to uninstall on reboot".into()
        }
    );
}

#[test]
fn other_driver_is_not_found() {
    assert_eq!(parse_systemextensions(NO_KARABINER), DriverState::NotFound);
    assert!(!parse_systemextensions(NO_KARABINER).is_ready());
}

#[test]
fn empty_list_is_not_found() {
    assert_eq!(parse_systemextensions(EMPTY), DriverState::NotFound);
}

#[test]
fn parses_driver_version_from_bundle_column() {
    assert_eq!(parse_driver_version(ACTIVATED), Some(Version::new(5, 0, 0)));
    // Version present even when the extension isn't enabled yet.
    assert_eq!(
        parse_driver_version(WAITING_FOR_USER),
        Some(Version::new(5, 0, 0))
    );
    assert_eq!(parse_driver_version(NO_KARABINER), None);
    assert_eq!(parse_driver_version(EMPTY), None);
}

#[test]
fn driver_coupling_is_report_only_until_a_bundle_mapping_is_verified() {
    // systemextensionsctl reports the .dext *bundle*
    // version (1.8.0), not the pkg version kanata release notes pin
    // (v6.x/v8.x) — so no version may be judged incompatible yet.
    assert_eq!(supported_driver_major(Version::new(1, 12, 0)), None);
    assert_eq!(supported_driver_major(Version::new(1, 8, 1)), None);
}

/// A `systemextensionsctl list` captured on hardware: tab-separated, with the
/// bundle version, which is not the package's.
#[test]
fn parses_the_captured_hw_output() {
    const CAPTURE: &str = "\
1 extension(s)
--- com.apple.system_extension.driver_extension (Go to 'System Settings > General > Login Items & Extensions > Driver Extensions' to modify these system extension(s))
enabled\tactive\tteamID\tbundleID (version)\tname\t[state]
*\t*\tG43BCU2T37\torg.pqrs.Karabiner-DriverKit-VirtualHIDDevice (1.8.0/1.8.0)\torg.pqrs.Karabiner-DriverKit-VirtualHIDDevice\t[activated enabled]
";
    assert_eq!(
        parse_systemextensions(CAPTURE),
        DriverState::ActivatedEnabled
    );
    assert_eq!(
        parse_driver_version(CAPTURE),
        Some(Version::new(1, 8, 0))
    );
}
const LAUNCHCTL_KE: &str = "\
PID	Status	Label
1	0	com.apple.launchd
543	0	org.pqrs.service.daemon.Karabiner-VirtualHIDDevice-Daemon
-	0	com.example.unrelated
";

const LAUNCHCTL_COMMUNITY: &str = "\
PID	Status	Label
1	0	com.apple.launchd
812	0	org.pqrs.karabiner-daemon
";

const LAUNCHCTL_OURS: &str = "\
PID	Status	Label
1	0	com.apple.launchd
900	0	io.github.ibimal.kanatabar.vhidd
543	0	org.pqrs.service.daemon.Karabiner-VirtualHIDDevice-Daemon
";

const LAUNCHCTL_NONE: &str = "\
PID	Status	Label
1	0	com.apple.launchd
-	0	com.example.unrelated
";

fn classify_output(output: &str) -> VhiddManagement {
    let labels = parse_launchctl_list(output);
    classify(&labels)
}

#[test]
fn parses_labels_from_launchctl_list() {
    assert_eq!(
        parse_launchctl_list(LAUNCHCTL_COMMUNITY),
        vec!["com.apple.launchd", "org.pqrs.karabiner-daemon"]
    );
    assert!(parse_launchctl_list("PID\tStatus\tLabel\n").is_empty());
    assert!(parse_launchctl_list("").is_empty());
}

#[test]
fn karabiner_elements_job_is_other() {
    assert_eq!(
        classify_output(LAUNCHCTL_KE),
        VhiddManagement::Other(
            "org.pqrs.service.daemon.Karabiner-VirtualHIDDevice-Daemon".into()
        )
    );
}

#[test]
fn community_plist_is_other() {
    assert_eq!(
        classify_output(LAUNCHCTL_COMMUNITY),
        VhiddManagement::Other("org.pqrs.karabiner-daemon".into())
    );
}

#[test]
fn our_label_wins_even_with_karabiner_labels_present() {
    assert_eq!(classify_output(LAUNCHCTL_OURS), VhiddManagement::Ours);
}

#[test]
fn no_karabiner_job_is_unmanaged() {
    assert_eq!(classify_output(LAUNCHCTL_NONE), VhiddManagement::Unmanaged);
}

/// The DriverKit extension itself appears in
/// `launchctl list` as a `-0x…` process instance. That is the *driver
/// running*, not daemon management.
#[test]
fn driver_extension_instance_is_not_management() {
    const LAUNCHCTL_EXTENSION_ONLY: &str = "\
PID	Status	Label
1	0	com.apple.launchd
2843	0	org.pqrs.Karabiner-DriverKit-VirtualHIDDevice-0x100083453
";
    assert_eq!(
        classify_output(LAUNCHCTL_EXTENSION_ONLY),
        VhiddManagement::Unmanaged
    );
    // A real (plist-backed) manager alongside the instance still counts.
    const LAUNCHCTL_BOTH: &str = "\
PID	Status	Label
2843	0	org.pqrs.Karabiner-DriverKit-VirtualHIDDevice-0x100083453
812	0	org.pqrs.karabiner-daemon
";
    assert_eq!(
        classify_output(LAUNCHCTL_BOTH),
        VhiddManagement::Other("org.pqrs.karabiner-daemon".into())
    );
}

#[test]
fn install_only_when_unmanaged_or_ours_and_binary_present() {
    // Never a second instance: someone else manages it → hands off.
    assert!(!should_install(&VhiddManagement::Other("x".into()), true));
    // Unmanaged + binary present → install; refresh our own too.
    assert!(should_install(&VhiddManagement::Unmanaged, true));
    assert!(should_install(&VhiddManagement::Ours, true));
    // Driver not installed yet → nothing to run; skip.
    assert!(!should_install(&VhiddManagement::Unmanaged, false));
}

#[test]
fn descriptions_are_actionable() {
    assert!(VhiddManagement::Unmanaged.describe().contains("reboot"));
    assert!(VhiddManagement::Other("org.pqrs.karabiner-daemon".into())
        .describe()
        .contains("org.pqrs.karabiner-daemon"));
}
