//! Notifications, pages, glyphs and windows.

use kanatabar::icons::{
    rgba_for, template_rgba, PngFrame, GRAYSCALE, GRAYSCALE_ALPHA, ICON_SIZE, RGB, RGBA,
};
use kanatabar::ipc::{ErrorKind, Event};
use kanatabar::model::IconKind;
use kanatabar::notify::{escape, notification_for, BundledNotifier, OsascriptNotifier};
use kanatabar::pages::height::{INFINITE, NOTHING, NOTHING_POINT};
use kanatabar::pages::{parse, PageId, PageMessage};
use kanatabar::state::{DegradedReason, SupervisorState};
use kanatabar::ui_shell::{
    asset_at, may_navigate, styled_page, Asset, FitState, RenderState,
};
use kanatabar::wizard;

#[test]
fn escape_keeps_the_applescript_literal_closed() {
    assert_eq!(escape(r#"say "hi""#), r#"say \"hi\""#);
    assert_eq!(escape(r"back\slash"), r"back\\slash");
}

#[test]
fn bundled_notifier_requires_an_app_bundle() {
    // No bundle → no BundledNotifier → osascript path.
    assert!(BundledNotifier::new(None).is_none());
}

#[test]
fn crash_notifies_with_the_exit_reason() {
    let (title, body) = notification_for(&Event::Crash {
        code: Some(11),
        signal: None,
    })
    .expect("crash notifies");
    assert_eq!(title, "KanataBar");
    assert!(body.contains("exit code 11"), "{body}");

    let (_, sig) = notification_for(&Event::Crash {
        code: None,
        signal: Some(9),
    })
    .expect("signal crash notifies");
    assert!(sig.contains("signal 9"), "{sig}");
}

#[test]
fn entering_degraded_notifies_with_the_fix_hint() {
    let (_, body) = notification_for(&Event::StateChanged {
        from: SupervisorState::Backoff,
        to: SupervisorState::Degraded,
        reason: Some(DegradedReason::DriverNotActivated),
    })
    .expect("degraded notifies");
    assert_eq!(body, DegradedReason::DriverNotActivated.describe());
}

#[test]
fn leaving_degraded_for_running_notifies_recovery() {
    assert!(notification_for(&Event::StateChanged {
        from: SupervisorState::Degraded,
        to: SupervisorState::Running,
        reason: None,
    })
    .is_some());
}

#[test]
fn routine_backoff_recovery_is_silent() {
    assert_eq!(
        notification_for(&Event::StateChanged {
            from: SupervisorState::Backoff,
            to: SupervisorState::Running,
            reason: None,
        }),
        None
    );
}

#[test]
fn layer_and_device_changes_are_silent() {
    assert_eq!(
        notification_for(&Event::LayerChanged {
            layer: "nav".into()
        }),
        None
    );
    assert_eq!(
        notification_for(&Event::DeviceChanged {
            added: true,
            name: "Keychron K2".into(),
        }),
        None
    );
    assert_eq!(
        notification_for(&Event::DriverIssue {
            kind: ErrorKind::VhidDaemonDown,
            message: "down".into(),
        }),
        None
    );
}

#[test]
fn the_script_shows_title_and_body() {
    assert_eq!(
        OsascriptNotifier.script("A \"b\"", "c\\d"),
        "display notification \"c\\\\d\" with title \"A \\\"b\\\"\""
    );
    let bundled = BundledNotifier::new(Some("io.github.ibimal.kanatabar".to_string()));
    assert_eq!(bundled.expect("bundled").bundle(), "io.github.ibimal.kanatabar");
}

/// The height that a message reports, as the shell reads it.
fn height(message: Option<PageMessage>) -> Option<f64> {
    match message {
        Some(PageMessage::Height(text)) => Some(text.parse().expect("a height is a number")),
        _ => None,
    }
}

#[test]
fn common_messages_parse_for_every_page() {
    for page in [PageId::Devices, PageId::Health, PageId::Wizard] {
        assert_eq!(parse(page, "ready"), Some(PageMessage::Ready));
        assert_eq!(parse(page, "close"), Some(PageMessage::Close));
        assert_eq!(height(parse(page, "height:512.5")), Some(512.5));
        assert_eq!(parse(page, "height:nan"), None);
        assert_eq!(parse(page, "height:-4"), None);
        assert_eq!(parse(page, "reboot"), None);
    }
}

/// The text is a height exactly where the number that it stands for is finite and
/// not below zero.
fn agrees(text: &str) {
    let number: Option<f64> = text.parse().ok();
    let expected = number.filter(|h| h.is_finite() && *h >= 0.0);
    assert_eq!(
        height(parse(PageId::Devices, &format!("height:{text}"))),
        expected,
        "{text}"
    );
}

#[test]
fn malformed_heights_are_dropped() {
    for text in [
        "", ".", "+", "-", "+.", "e5", ".e5", "abc", "nan", "NaN", "-nan", "inf", "+inf", "-inf",
        "infinity", "Infinity", "1e", "1e+", "1e-", "1e5x", "1e1.5", "1.2.3", "1,5", " 1", "1 ",
        "--1", "+-1", "0x10", "1_000", "-4", "-0.5", "-1e-5", "1e400", "+1e309", "-1e400", "٣",
        "1e٣", "12px",
    ] {
        assert_eq!(parse(PageId::Wizard, &format!("height:{text}")), None, "{text}");
        agrees(text);
    }
}

#[test]
fn numbers_are_heights() {
    for text in [
        "0", "512.5", "512", "+7", ".5", "5.", "007", "1e2", "1E2", "1e+2", "1.5e-3", "-0", "-0.0",
        "-.0e9", "1e308", "-1e-400", "0e999999999", "0.0e-99999", "-0e400", "1e-400",
        "123456789012345678901234567890", "00000000000000000000001e-5", "1e00000000000000000002",
        "1e-99999999999999999999999999999999", "0e99999999999999999999999999999999",
    ] {
        assert!(parse(PageId::Health, &format!("height:{text}")).is_some(), "{text}");
        agrees(text);
    }
    assert_eq!(
        parse(PageId::Health, "height:1e99999999999999999999999999999999"),
        None
    );
    assert_eq!(
        parse(PageId::Health, "height:-1e99999999999999999999999999999999"),
        None
    );
}

/// The last digit of a text, one up or one down.
fn nudged(digits: &str, up: bool) -> String {
    let (head, last) = digits.split_at(digits.len() - 1);
    let last: i32 = last.parse().expect("a digit");
    let next = if up { last + 1 } else { last - 1 };
    assert!((0..10).contains(&next));
    format!("{head}{next}")
}

/// The largest heights and the smallest numbers below zero are told to the digit.
#[test]
fn heights_are_bounded_to_the_digit() {
    // From the bound on, the closest number is infinity.
    agrees(INFINITE);
    agrees(&format!("{INFINITE}e-1"));
    agrees(&format!("{INFINITE}0e-1"));
    agrees(&format!("{INFINITE}.000"));
    agrees(&format!("{INFINITE}.000001"));
    for up in [false, true] {
        agrees(&nudged(INFINITE, up));
        agrees(&format!("{}e1", &nudged(INFINITE, up)[..308]));
    }
    assert_eq!(parse(PageId::Devices, &format!("height:{INFINITE}")), None);
    let most = format!("height:{}.999", nudged(INFINITE, false));
    assert_eq!(height(parse(PageId::Devices, &most)), Some(f64::MAX));
    // Up to the bound, the closest number is zero.
    let tiny = |digits: &str| format!("-0.{digits}e{NOTHING_POINT}");
    agrees(&tiny(NOTHING));
    agrees(&tiny(&format!("{NOTHING}0000")));
    agrees(&tiny(&format!("{NOTHING}0001")));
    for up in [false, true] {
        agrees(&tiny(&nudged(NOTHING, up)));
    }
    assert_eq!(
        height(parse(PageId::Devices, &format!("height:{}", tiny(NOTHING)))),
        Some(0.0)
    );
    let more = format!("height:{}", tiny(&nudged(NOTHING, true)));
    assert_eq!(parse(PageId::Devices, &more), None);
}

#[test]
fn open_wizard_is_health_only() {
    assert_eq!(
        parse(PageId::Health, "open-wizard"),
        Some(PageMessage::OpenWizard)
    );
    assert_eq!(parse(PageId::Devices, "open-wizard"), None);
    assert_eq!(parse(PageId::Wizard, "open-wizard"), None);
}

#[test]
fn step_actions_are_wizard_only_and_validated_against_the_table() {
    let steps = wizard::steps();
    let runnable = steps.iter().position(|s| s.run.is_some()).expect("exists");
    let openable = steps.iter().position(|s| s.open.is_some()).expect("exists");
    let inert = steps
        .iter()
        .position(|s| s.run.is_none() && s.open.is_none())
        .expect("exists");

    assert_eq!(
        parse(PageId::Wizard, &format!("run:{runnable}")),
        Some(PageMessage::RunStep(runnable))
    );
    assert_eq!(
        parse(PageId::Wizard, &format!("open:{openable}")),
        Some(PageMessage::OpenStep(openable))
    );
    // A step with no run/open can't be actioned even with a valid index.
    assert_eq!(parse(PageId::Wizard, &format!("run:{inert}")), None);
    assert_eq!(parse(PageId::Wizard, &format!("open:{inert}")), None);
    // Out-of-bounds and non-wizard pages are rejected.
    assert_eq!(parse(PageId::Wizard, &format!("run:{}", steps.len())), None);
    assert_eq!(parse(PageId::Health, &format!("run:{runnable}")), None);
    assert_eq!(parse(PageId::Wizard, "run:abc"), None);
}

const ALL_KINDS: [IconKind; 5] = [
    IconKind::Running,
    IconKind::Paused,
    IconKind::Degraded,
    IconKind::Idle,
    IconKind::Disconnected,
];

#[test]
fn every_glyph_decodes_to_the_right_buffer_size() {
    for kind in ALL_KINDS {
        assert_eq!(
            rgba_for(kind).len(),
            (ICON_SIZE * ICON_SIZE * 4) as usize,
            "{kind:?}"
        );
    }
}

#[test]
fn every_glyph_is_a_pure_black_alpha_shape() {
    // macOS template-image requirement: RGB black, shape in alpha.
    for kind in ALL_KINDS {
        let rgba = rgba_for(kind);
        assert!(
            rgba.chunks_exact(4)
                .all(|px| px[0] == 0 && px[1] == 0 && px[2] == 0),
            "{kind:?} RGB is not black"
        );
        assert!(
            rgba.chunks_exact(4).any(|px| px[3] > 0),
            "{kind:?} draws nothing"
        );
    }
}

#[test]
fn distinct_kinds_produce_distinct_glyphs() {
    assert_ne!(rgba_for(IconKind::Running), rgba_for(IconKind::Paused));
    assert_ne!(rgba_for(IconKind::Running), rgba_for(IconKind::Degraded));
    assert_ne!(rgba_for(IconKind::Running), rgba_for(IconKind::Idle));
    assert_ne!(rgba_for(IconKind::Idle), rgba_for(IconKind::Disconnected));
    assert_ne!(rgba_for(IconKind::Paused), rgba_for(IconKind::Idle));
}

/// Each pixel's alpha is the glyph's own, and the buffer is not the file.
#[test]
fn glyphs_are_decoded_not_copied() {
    let frame = PngFrame {
        depth: 8,
        color: GRAYSCALE_ALPHA,
        data: vec![200, 7, 0, 255],
    };
    assert_eq!(template_rgba(Some(frame)), vec![0, 0, 0, 7, 0, 0, 0, 255]);
    let opaque = PngFrame {
        depth: 8,
        color: RGB,
        data: vec![1, 2, 3],
    };
    assert_eq!(template_rgba(Some(opaque)), vec![0, 0, 0, 255]);
    let rgba = PngFrame {
        depth: 8,
        color: RGBA,
        data: vec![1, 2, 3, 4],
    };
    assert_eq!(template_rgba(Some(rgba)), vec![0, 0, 0, 4]);
    let gray = PngFrame {
        depth: 8,
        color: GRAYSCALE,
        data: vec![9],
    };
    assert_eq!(template_rgba(Some(gray)), vec![0, 0, 0, 255]);
    // What cannot be drawn is blank.
    assert_eq!(template_rgba(None), vec![0; 36 * 36 * 4]);
    assert_ne!(rgba_for(IconKind::Running), vec![0; 36 * 36 * 4]);
}

#[test]
fn fit_echo_is_not_a_user_resize() {
    let mut fit = FitState::default();
    assert!(fit.request((800, 720)));
    fit.resized((800, 720)); // our own echo
    assert!(fit.request((800, 500)), "fitting continues after an echo");
    fit.resized((800, 501)); // rounded echo (±2px tolerance)
    assert!(fit.request((800, 520)));
}

#[test]
fn a_user_drag_stops_fitting_until_reset() {
    let mut fit = FitState::default();
    assert!(fit.request((800, 720)));
    fit.resized((800, 720));
    fit.resized((1024, 900)); // no fit pending: the user dragged
    assert!(!fit.request((800, 500)), "user size wins");
    fit.reset(); // re-shown
    assert!(fit.request((800, 500)), "fitting resumes on show");
}

#[test]
fn intermediate_events_during_our_resize_are_not_user_drags() {
    let mut fit = FitState::default();
    assert!(fit.request((800, 720)));
    fit.resized((800, 600)); // transient frame mid-animation
    fit.resized((800, 720)); // settles on our size
    assert!(fit.request((800, 500)), "still fitting");
}

#[test]
fn renders_wait_for_the_page() {
    let mut state = RenderState::default();
    assert_eq!(state.render("{\"a\":1}".to_string()), None);
    assert_eq!(state.page_ready().as_deref(), Some("window.__render({\"a\":1})"));
    assert_eq!(
        state.render("{}".to_string()).as_deref(),
        Some("window.__render({})")
    );
    assert_eq!(RenderState::default().page_ready(), None);
    // Of several early views the latest is shown.
    let mut early = RenderState::default();
    for view in ["1", "2", "3"] {
        assert_eq!(early.render(view.to_string()), None);
    }
    assert_eq!(early.page_ready().as_deref(), Some("window.__render(3)"));
}

#[test]
fn pages_stay_inside_their_scheme() {
    assert!(may_navigate("kbasset://devices"));
    assert!(!may_navigate("https://example.com"));
    assert_eq!(styled_page("<style>/*__SHARED_CSS__*/</style>", "a{}"), "<style>a{}</style>");
    assert_eq!(
        asset_at("/index.html").map(Asset::mime),
        Some("text/html; charset=utf-8")
    );
    assert_eq!(asset_at("/icon.png").map(Asset::mime), Some("image/png"));
    assert_eq!(asset_at("/etc/passwd"), None);
}
