//! The doctor's report and the daemon's configuration.

use kanatabar::backoff::BackoffConfig;
use kanatabar::config::{
    ConfigFile, ConfigStatus, Defaults, PresetDef, PresetList, PresetMap, CONFIG_SCHEMA,
};
use kanatabar::doctor::{
    all_ok, checks, failed_count, format_failures_summary, format_report, is_setup_check,
    setup_complete, ALL_CHECKS, SETUP_CHECKS,
};
use kanatabar::ipc::DoctorCheck;

fn check(name: &str, ok: bool) -> DoctorCheck {
    DoctorCheck {
        name: name.to_string(),
        ok,
        detail: "detail".to_string(),
        fix_hint: if ok { None } else { Some("fix it".to_string()) },
    }
}

#[test]
fn all_ok_is_true_only_when_no_check_failed() {
    assert!(all_ok(&[check("a", true), check("b", true)]));
    assert!(!all_ok(&[check("a", true), check("b", false)]));
    assert!(all_ok(&[])); // vacuously true
}

#[test]
fn format_report_marks_and_hints_each_check() {
    let report = format_report(&[check("daemon", true), check("driver", false)]);
    assert!(report.contains("✅ daemon: detail"));
    assert!(report.contains("❌ driver: detail"));
    assert!(report.contains("   ↳ fix it")); // failure hint present
    assert!(report.contains("1 check(s) failed"));
    // All-green report ends with the pass line, no hints.
    let green = format_report(&[check("daemon", true)]);
    assert!(green.contains("All checks passed."));
    assert!(!green.contains("↳"));
}

#[test]
fn failures_summary_names_failures_on_one_line() {
    assert_eq!(format_failures_summary(&[check("daemon", true)]), None);
    let summary =
        format_failures_summary(&[check("daemon", false), check("driver", false)]).unwrap();
    assert!(summary.contains("2 check(s) need attention"));
    assert!(summary.contains("daemon, driver"));
    assert!(!summary.contains('\n'), "banner body must be single-line");
}

#[test]
fn failed_count_counts_failures() {
    assert_eq!(failed_count(&[check("a", true), check("b", false)]), 1);
    assert_eq!(failed_count(&[check("a", false), check("b", false)]), 2);
}

#[test]
fn setup_checks_are_a_subset_of_all_checks_and_classify() {
    for name in SETUP_CHECKS {
        assert!(ALL_CHECKS.contains(&name), "unknown setup check {name}");
        assert!(is_setup_check(name));
    }
    // Runtime-class = the complement; spot-check the split.
    for name in [
        checks::KANATA_BINARY,
        checks::VHID_DAEMON,
        checks::CONTROL_SOCKET,
        checks::ACTIVE_CONFIG,
        checks::CONFIG_FILE,
        checks::SUPERVISOR,
    ] {
        assert!(!is_setup_check(name), "{name} must be runtime-class");
    }
}

#[test]
fn setup_complete_ignores_runtime_failures() {
    // A broken active config is runtime-class: setup stays complete.
    let mut all: Vec<DoctorCheck> = ALL_CHECKS.map(|n| check(n, true)).to_vec();
    assert!(setup_complete(&all));
    all.iter_mut()
        .find(|c| c.name == checks::ACTIVE_CONFIG)
        .expect("present")
        .ok = false;
    assert!(setup_complete(&all), "runtime failure is not a setup gap");
    // But any setup-class failure flips it.
    all.iter_mut()
        .find(|c| c.name == checks::INPUT_MONITORING)
        .expect("present")
        .ok = false;
    assert!(!setup_complete(&all));
    // Vacuously complete on an empty report (partial reports stay honest).
    assert!(setup_complete(&[]));
}

#[test]
fn all_checks_list_has_no_duplicates() {
    let mut seen = std::collections::BTreeSet::new();
    for name in ALL_CHECKS {
        assert!(seen.insert(name), "duplicate check name {name}");
    }
}


#[test]
fn a_report_reads_in_full() {
    let report = format_report(&[check("daemon", true), check("driver", false)]);
    assert_eq!(
        report,
        "✅ daemon: detail\n❌ driver: detail\n   ↳ fix it\n\n1 check(s) failed.\n"
    );
}


#[test]
fn config_file_defaults_match_spec() {
    let defaults = Defaults::default();
    assert_eq!(defaults.tcp_port, 5829);
    assert_eq!(defaults.debounce_ms, 500);
    assert_eq!(defaults.extra_args, vec!["--nodelay".to_string()]);
    assert_eq!(defaults.backoff, BackoffConfig::default());
    assert_eq!(ConfigFile::default().schema, CONFIG_SCHEMA);
}


#[test]
fn autostart_preset_is_found() {
    let mut presets = PresetMap::new();
    presets.insert(
        "main".to_string(),
        PresetDef {
            config: "/main.kbd".into(),
            autostart: true,
            kanata_bin: None,
            extra_args: vec![],
        },
    );
    presets.insert(
        "gaming".to_string(),
        PresetDef {
            config: "/gaming.kbd".into(),
            autostart: false,
            kanata_bin: None,
            extra_args: vec![],
        },
    );
    let file = ConfigFile {
        schema: 1,
        defaults: Defaults::default(),
        presets,
    };
    assert_eq!(file.autostart_preset().map(|(n, _)| n), Some("main"));
}


#[test]
fn presets_are_kept_by_name() {
    let mut presets = PresetMap::new();
    for (name, config) in [("b", "/1.kbd"), ("a", "/2.kbd"), ("b", "/3.kbd")] {
        presets.insert(
            name.to_string(),
            PresetDef {
                config: config.into(),
                autostart: name == "b",
                kanata_bin: None,
                extra_args: vec![],
            },
        );
    }
    assert_eq!(presets.len(), 2);
    assert_eq!(presets.at(0).name, "a");
    assert_eq!(presets.at(1).name, "b");
    assert_eq!(presets.at(1).def.config, "/3.kbd");
    assert_eq!(PresetList::default().presets.len(), 0);
    assert_eq!(ConfigFile::default().autostart_preset(), None);
}

#[test]
fn only_a_broken_config_is_invalid() {
    assert!(!ConfigStatus::Missing.is_invalid());
    assert!(!ConfigStatus::Loaded { presets: 2 }.is_invalid());
    assert!(ConfigStatus::Invalid {
        error: "line 3".to_string()
    }
    .is_invalid());
}
