//! Backoff, debouncing, device relevance, the log ring and config paths.

use kanatabar::backoff::BackoffConfig;
use kanatabar::debounce::Debouncer;
use kanatabar::device::{
    is_karabiner_virtual, is_keyboard, is_resync_relevant, DeviceChange, DeviceDescriptor,
    KARABINER_VENDOR_ID,
};
use kanatabar::logring::{LogRing, DEFAULT_LOG_CAPACITY};
use kanatabar::pathsafety::{check, PathFacts, PathReject};
use kanatabar::state::{DegradedReason, SupervisorState};

#[test]
fn defaults_match_spec() {
    let cfg = BackoffConfig::default();
    assert_eq!(cfg.base_ms, 1000);
    assert_eq!(cfg.cap_ms, 30_000);
    assert_eq!(cfg.budget, 5);
    assert_eq!(cfg.reset_after_s, 60);
}

#[test]
fn delay_doubles_then_caps() {
    let cfg = BackoffConfig::default();
    assert_eq!(cfg.delay_ms(0), 1000);
    assert_eq!(cfg.delay_ms(1), 2000);
    assert_eq!(cfg.delay_ms(2), 4000);
    assert_eq!(cfg.delay_ms(3), 8000);
    assert_eq!(cfg.delay_ms(4), 16_000);
    assert_eq!(cfg.delay_ms(5), 30_000); // 32s capped to 30s
    assert_eq!(cfg.delay_ms(63), 30_000);
    assert_eq!(cfg.delay_ms(64), 30_000); // shift overflow saturates
    assert_eq!(cfg.delay_ms(u32::MAX), 30_000);
}

#[test]
fn budget_boundary() {
    let cfg = BackoffConfig::default();
    assert!(!cfg.budget_spent(4));
    assert!(cfg.budget_spent(5));
    assert!(cfg.budget_spent(6));
}

/// The delay never exceeds the cap, never drops below `min(base, cap)`, and
/// never shrinks from one attempt to the next.
#[test]
fn delay_is_bounded_and_monotonic() {
    for (base_ms, cap_ms) in [(1, 1), (1, 1_000_000), (999_999, 3), (250, 30_000), (7, 6)] {
        let cfg = BackoffConfig {
            base_ms,
            cap_ms,
            ..BackoffConfig::default()
        };
        for attempt in 0..200 {
            let delay = cfg.delay_ms(attempt);
            assert!(delay <= cap_ms);
            assert!(delay >= base_ms.min(cap_ms));
            assert!(delay <= cfg.delay_ms(attempt + 1));
        }
    }
}

fn deb(ms: u64) -> Debouncer {
    Debouncer::new(ms)
}

#[test]
fn empty_never_fires() {
    assert!(deb(100).coalesce(&[]).is_empty());
}

#[test]
fn single_event_fires_once_after_window() {
    assert_eq!(deb(100).coalesce(&[50]), vec![150]);
}

#[test]
fn storm_within_window_collapses_to_one_fire() {
    // A dock hotplug storm: many events each within the window.
    let storm: Vec<u64> = (0..20).map(|i| i * 10).collect(); // 0,10,…,190
    let fires = deb(100).coalesce(&storm);
    assert_eq!(
        fires,
        vec![190 + 100],
        "exactly one restart per settle window"
    );
}

#[test]
fn events_spaced_beyond_window_fire_separately() {
    // Bluetooth reconnect cycles far apart → one fire each.
    assert_eq!(deb(100).coalesce(&[0, 200, 400]), vec![100, 300, 500]);
}

#[test]
fn boundary_gap_equal_to_window_stays_one_burst() {
    // A gap exactly equal to the window still resets the timer (same burst).
    assert_eq!(deb(100).coalesce(&[0, 100, 200]), vec![300]);
}

/// One fire per burst, strictly increasing.
#[test]
fn fires_count_the_bursts() {
    let events = [3, 3, 40, 141, 142, 900, 1000, 1101];
    let fires = deb(100).coalesce(&events);
    assert_eq!(fires, vec![140, 242, 1100, 1201]);
    let big_gaps = events.windows(2).filter(|w| w[1] - w[0] > 100).count();
    assert_eq!(fires.len(), big_gaps + 1);
    assert_eq!(deb(250).window(), 250);
}

/// Each event is exactly one window after the previous: a single burst.
#[test]
fn a_pure_storm_is_one_fire() {
    for count in 1..50u64 {
        let events: Vec<u64> = (0..count).map(|i| 17 + i * 5).collect();
        assert_eq!(deb(5).coalesce(&events).len(), 1);
    }
}

/// The end of time saturates.
#[test]
fn a_fire_past_the_end_of_time_saturates() {
    assert_eq!(deb(100).coalesce(&[u64::MAX - 1]), vec![u64::MAX]);
}

fn kbd() -> DeviceDescriptor {
    DeviceDescriptor {
        name: "Keychron K2".into(),
        vendor_id: Some(0x05AC),
        usage_page: Some(0x01),
        usage: Some(0x06),
    }
}

fn mouse() -> DeviceDescriptor {
    DeviceDescriptor {
        name: "Logitech Mouse".into(),
        vendor_id: Some(0x046D),
        usage_page: Some(0x01),
        usage: Some(0x02), // pointer
    }
}

#[test]
fn keyboard_add_and_remove_are_relevant() {
    assert!(is_resync_relevant(DeviceChange::Added, &kbd()));
    assert!(is_resync_relevant(DeviceChange::Removed, &kbd()));
}

#[test]
fn non_keyboard_is_ignored() {
    assert!(!is_resync_relevant(DeviceChange::Added, &mouse()));
    assert!(!is_resync_relevant(DeviceChange::Removed, &mouse()));
}

#[test]
fn karabiner_virtual_is_ignored_by_name() {
    let dev = DeviceDescriptor {
        name: "Karabiner DriverKit VirtualHIDKeyboard".into(),
        vendor_id: Some(0x16C0),
        usage_page: Some(0x01),
        usage: Some(0x06),
    };
    assert!(!is_resync_relevant(DeviceChange::Added, &dev));
}

#[test]
fn karabiner_virtual_is_ignored_by_vendor() {
    let dev = DeviceDescriptor {
        name: "some keyboard".into(),
        vendor_id: Some(KARABINER_VENDOR_ID),
        usage_page: Some(0x01),
        usage: Some(0x06),
    };
    assert!(!is_resync_relevant(DeviceChange::Added, &dev));
}

#[test]
fn unknown_usage_relevant_only_on_removal() {
    let dev = DeviceDescriptor {
        name: "mystery device".into(),
        vendor_id: Some(0x1234),
        usage_page: None,
        usage: None,
    };
    assert!(!is_resync_relevant(DeviceChange::Added, &dev));
    assert!(is_resync_relevant(DeviceChange::Removed, &dev));
}

#[test]
fn keyboards_and_virtual_devices_are_told_apart() {
    assert!(is_keyboard(0x01, 0x06));
    assert!(!is_keyboard(0x01, 0x02));
    assert!(!is_keyboard(0x0C, 0x06));
    assert!(is_karabiner_virtual("KARABINER virtual keyboard", None));
    assert!(is_karabiner_virtual("", Some(KARABINER_VENDOR_ID)));
    assert!(!is_karabiner_virtual("Keychron K2", Some(0x05AC)));
}

fn ring_with(cap: usize, n: usize) -> LogRing {
    let mut ring = LogRing::new(cap);
    for i in 0..n {
        ring.push(format!("line {i}"));
    }
    ring
}

#[test]
fn keeps_only_the_newest_capacity_lines() {
    let ring = ring_with(3, 5);
    assert_eq!(ring.len(), 3);
    assert_eq!(ring.last(10), vec!["line 2", "line 3", "line 4"]);
}

#[test]
fn last_n_returns_newest_in_order() {
    let ring = ring_with(10, 5);
    assert_eq!(ring.last(2), vec!["line 3", "line 4"]);
    assert_eq!(ring.last(0), Vec::<String>::new());
    // Asking for more than buffered returns everything.
    assert_eq!(ring.last(99).len(), 5);
}

#[test]
fn zero_capacity_is_clamped_to_one() {
    let mut ring = LogRing::new(0);
    ring.push("a".into());
    ring.push("b".into());
    assert_eq!(ring.last(9), vec!["b"]);
}

#[test]
fn empty_ring_reports_empty() {
    let ring = LogRing::new(4);
    assert!(ring.is_empty());
    assert!(ring.last(3).is_empty());
}

#[test]
fn the_default_ring_holds_the_default_capacity() {
    let mut ring = LogRing::default();
    for i in 0..DEFAULT_LOG_CAPACITY + 7 {
        ring.push(format!("{i}"));
    }
    assert_eq!(ring.len(), DEFAULT_LOG_CAPACITY);
    assert_eq!(ring.last(1), vec![format!("{}", DEFAULT_LOG_CAPACITY + 6)]);
    assert_eq!(ring.last(usize::MAX)[0], "7");
}

const REQ_UID: u32 = 501;

fn facts(is_regular_file: bool, uid: u32, mode: u32) -> PathFacts {
    PathFacts {
        is_regular_file,
        uid,
        mode,
    }
}

#[test]
fn accepts_root_owned_readonly() {
    assert_eq!(check(&facts(true, 0, 0o644), REQ_UID), Ok(()));
}

#[test]
fn accepts_requester_owned_readonly() {
    assert_eq!(check(&facts(true, REQ_UID, 0o600), REQ_UID), Ok(()));
    assert_eq!(check(&facts(true, REQ_UID, 0o644), REQ_UID), Ok(()));
}

#[test]
fn rejects_non_regular_file() {
    assert_eq!(
        check(&facts(false, 0, 0o644), REQ_UID),
        Err(PathReject::NotRegularFile)
    );
}

#[test]
fn rejects_foreign_owner() {
    // Owned by some other unprivileged user.
    assert_eq!(
        check(&facts(true, 999, 0o644), REQ_UID),
        Err(PathReject::ForeignOwner)
    );
}

#[test]
fn rejects_group_writable() {
    assert_eq!(
        check(&facts(true, 0, 0o664), REQ_UID),
        Err(PathReject::Writable)
    );
}

#[test]
fn rejects_world_writable() {
    assert_eq!(
        check(&facts(true, REQ_UID, 0o646), REQ_UID),
        Err(PathReject::Writable)
    );
}

#[test]
fn regular_file_check_precedes_owner_check() {
    // A non-regular file owned by a foreign uid reports the file-type fault.
    assert_eq!(
        check(&facts(false, 999, 0o777), REQ_UID),
        Err(PathReject::NotRegularFile)
    );
}

#[test]
fn rejections_say_what_to_fix() {
    for reject in [
        PathReject::NotRegularFile,
        PathReject::ForeignOwner,
        PathReject::Writable,
    ] {
        assert!(!reject.describe().is_empty());
    }
    assert!(PathReject::Writable.describe().contains("writable"));
}

#[test]
fn states_and_reasons_have_their_texts() {
    assert_eq!(SupervisorState::Backoff.name(), "Backoff");
    assert_eq!(SupervisorState::Running.name(), "Running");
    assert!(DegradedReason::VhidDaemonDown
        .describe()
        .to_lowercase()
        .contains("daemon"));
}

/// Each degraded reason reads as one line, and no two read alike.
#[test]
fn reasons_are_one_line_each_and_differ() {
    let reasons = [
        DegradedReason::RetryBudgetExhausted,
        DegradedReason::DriverNotActivated,
        DegradedReason::VhidDaemonDown,
        DegradedReason::ConfigBroken,
        DegradedReason::KanataBinMissing,
        DegradedReason::InputMonitoringDenied,
        DegradedReason::DeviceGrabConflict,
        DegradedReason::TcpPortConflict,
        DegradedReason::OutputBackendUnavailable,
    ];
    for (i, reason) in reasons.iter().enumerate() {
        assert!(!reason.describe().is_empty());
        assert!(!reason.describe().contains('\n'));
        for other in &reasons[i + 1..] {
            assert_ne!(reason.describe(), other.describe());
        }
    }
}
