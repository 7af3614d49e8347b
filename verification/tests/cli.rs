//! The command line: requests, what is printed, and exit codes.

use kanatabar::cli::{
    cannot_connect, command_outcome, devices_outcome, doctor_offline_report, doctor_outcome,
    error_line, fetch_step, follow_step, presets_outcome, status_outcome, transition_text, Command, InstallArgs, LogStep,
    Outcome, EXIT_CANNOT_CONNECT, EXIT_DEGRADED, EXIT_OK, EXIT_OPERATIONAL, EXIT_USAGE,
};
use kanatabar::client::{
    ack_answer, check_line, devices_answer, doctor_answer, frame_of, framed, hello, hello_answer,
    presets_answer, status_answer, Answer, Exchange, Frame, LineError, RequestIds, DEFAULT_SOCKET,
};
use kanatabar::install::Component;
use kanatabar::ipc::{
    negotiate, DeviceInfo, DoctorCheck, ErrorKind, Event, PresetInfo, RequestPayload, Response,
    ResponsePayload, Status, MAX_LINE_BYTES,
};
use kanatabar::single_instance;
use kanatabar::state::{DegradedReason, SupervisorState};

fn status(state: SupervisorState) -> Status {
    Status {
        state,
        active_preset: Some("main".into()),
        active_layer: None,
        kanata_pid: Some(42),
        kanata_version: None,
        driver_ok: None,
        last_error: None,
        degraded_reason: None,
        passthrough: false,
        uptime_s: 61,
        daemon_version: "0.3.0".into(),
    }
}

fn check(name: &str, ok: bool) -> DoctorCheck {
    DoctorCheck {
        name: name.to_string(),
        ok,
        detail: "d".to_string(),
        fix_hint: None,
    }
}

fn printed(outcome: &Outcome) -> &str {
    match outcome {
        Outcome::Print { text, .. } => text,
        other => panic!("nothing printed: {other:?}"),
    }
}

#[test]
fn mutually_exclusive_flags_are_a_usage_error() {
    let args = |daemon_only, agent_only| InstallArgs {
        daemon_only,
        agent_only,
        prefix: Some("/tmp/p".to_string()),
        skip_launchctl: true,
    };
    assert_eq!(
        args(true, true).into_config().err(),
        Some("--daemon-only and --agent-only are mutually exclusive")
    );
    assert_eq!(EXIT_USAGE, 2);
    let cfg = args(true, false).into_config().expect("daemon only");
    assert_eq!(cfg.component, Component::Daemon);
    assert_eq!(cfg.prefix, "/tmp/p");
    assert!(cfg.skip_launchctl);
    assert_eq!(
        args(false, true).into_config().expect("agent only").component,
        Component::Agent
    );
    let plain = InstallArgs {
        daemon_only: false,
        agent_only: false,
        prefix: None,
        skip_launchctl: false,
    };
    let cfg = plain.into_config().expect("both");
    assert_eq!(cfg.component, Component::Both);
    assert_eq!(cfg.prefix, "/");
}

#[test]
fn doctor_is_useful_offline_with_the_daemon_check_failing() {
    let report = doctor_offline_report("/tmp/absent.sock");
    assert_eq!(report.len(), 1);
    assert_eq!(report[0].name, "daemon");
    assert!(!report[0].ok);
    assert_eq!(report[0].detail, "cannot connect to /tmp/absent.sock");
    assert!(report[0].fix_hint.is_some(), "offline daemon check has a hint");
    assert_eq!(EXIT_CANNOT_CONNECT, 3);
}

#[test]
fn commands_send_their_request() {
    let cases = [
        (Command::Start, RequestPayload::Start, "started"),
        (Command::Stop, RequestPayload::Stop, "stopped"),
        (Command::Restart, RequestPayload::Restart, "restarting"),
        (Command::Pause, RequestPayload::Pause, "paused"),
        (Command::Resume, RequestPayload::Resume, "resuming"),
        (
            Command::Autostart { on: true },
            RequestPayload::SetAutostart { enabled: true },
            "autostart updated",
        ),
        (
            Command::PresetSwitch { name: "a".into() },
            RequestPayload::SwitchPreset { name: "a".into() },
            "switched",
        ),
        (
            Command::PresetAdd {
                name: "a".into(),
                config: "/a.kbd".into(),
                autostart: true,
            },
            RequestPayload::AddPreset {
                name: "a".into(),
                config: "/a.kbd".into(),
                autostart: true,
            },
            "preset added",
        ),
        (
            Command::PresetRemove { name: "a".into() },
            RequestPayload::RemovePreset { name: "a".into() },
            "preset removed",
        ),
        (
            Command::ConfigValidate {
                path: "/a.kbd".into(),
            },
            RequestPayload::ValidateConfig {
                path: "/a.kbd".into(),
            },
            "config OK",
        ),
        (
            Command::ConfigApply {
                path: "/a.kbd".into(),
            },
            RequestPayload::ApplyConfig {
                path: "/a.kbd".into(),
            },
            "applied",
        ),
        (
            Command::ConfigReload,
            RequestPayload::ReloadConfig,
            "config.toml reloaded",
        ),
    ];
    for (command, request, done) in cases {
        assert_eq!(command.done(), done);
        assert_eq!(command.into_request(), request);
    }
}

#[test]
fn answers_decide_the_exit_code() {
    let done = command_outcome(ack_answer(ResponsePayload::Ack), "stopped");
    assert_eq!(
        done,
        Outcome::Print {
            text: "stopped\n".to_string(),
            code: EXIT_OK
        }
    );
    let refused = command_outcome(
        ack_answer(ResponsePayload::Error {
            kind: ErrorKind::ConfigInvalid,
            message: "line 3".into(),
        }),
        "applied",
    );
    assert_eq!(
        refused,
        Outcome::Fail {
            message: "line 3".to_string()
        }
    );
    assert_eq!(refused.code(), EXIT_OPERATIONAL);
    let odd = command_outcome(ack_answer(ResponsePayload::HelloAck), "applied");
    assert_eq!(odd, Outcome::Unexpected(ResponsePayload::HelloAck));
    assert_eq!(odd.code(), EXIT_OPERATIONAL);
}

#[test]
fn the_status_reads_line_by_line() {
    let outcome = status_outcome(Answer::Granted(status(SupervisorState::Running)));
    assert_eq!(
        printed(&outcome),
        "state:          Running\n\
         preset:         main\n\
         kanata pid:     42\n\
         uptime:         61s\n\
         daemon version: 0.3.0\n"
    );
    assert_eq!(outcome.code(), EXIT_OK);
    let mut degraded = status(SupervisorState::Degraded);
    degraded.active_preset = None;
    degraded.passthrough = true;
    degraded.active_layer = Some("nav".into());
    degraded.kanata_pid = None;
    degraded.last_error = Some("boom".into());
    let outcome = status_outcome(Answer::Granted(degraded));
    assert_eq!(
        printed(&outcome),
        "state:          Degraded\n\
         preset:         (none — passthrough, remapping nothing)\n\
         layer:          nav\n\
         kanata pid:     (not running)\n\
         last error:     boom\n\
         uptime:         61s\n\
         daemon version: 0.3.0\n"
    );
    assert_eq!(outcome.code(), EXIT_DEGRADED);
}

#[test]
fn presets_are_listed_or_suggested() {
    let presets = vec![
        PresetInfo {
            name: "main".into(),
            config: "/main.kbd".into(),
            autostart: true,
            active: true,
        },
        PresetInfo {
            name: "a-name-longer-than-the-column".into(),
            config: "/b.kbd".into(),
            autostart: false,
            active: false,
        },
    ];
    let listed = presets_outcome(Answer::Granted(presets), "/d", &vec![]);
    assert_eq!(
        printed(&listed),
        "* main             /main.kbd  [autostart]\n  a-name-longer-than-the-column /b.kbd\n"
    );
    let empty = presets_outcome(Answer::Granted(vec![]), "/d", &vec![]);
    assert!(printed(&empty).starts_with("No presets configured."));
    assert!(printed(&empty).contains("kanatactl preset add"));
    assert_eq!(empty.code(), EXIT_OK);
    let found = presets_outcome(
        Answer::Granted(vec![]),
        "/d",
        &vec!["config.kbd".to_string(), "work.kbd".to_string()],
    );
    assert!(printed(&found).ends_with(
        "  kanatactl preset add main /d/config.kbd\n  kanatactl preset add work /d/work.kbd\n"
    ));
}

#[test]
fn devices_are_listed() {
    let devices = vec![
        DeviceInfo {
            name: "K2".into(),
            matched: true,
        },
        DeviceInfo {
            name: "".into(),
            matched: false,
        },
    ];
    let listed = devices_outcome(Answer::Granted(devices));
    assert_eq!(printed(&listed), "✔ K2\n  Unnamed device\n");
    let none = devices_outcome(Answer::Granted(vec![]));
    assert!(printed(&none).starts_with("(no devices recorded"));
}

#[test]
fn doctor_exits_by_its_checks() {
    let green = doctor_outcome(Answer::Granted(vec![check("daemon", true)]));
    assert_eq!(green.code(), EXIT_OK);
    assert_eq!(printed(&green), "✅ daemon: d\n\nAll checks passed.\n");
    let red = doctor_outcome(Answer::Granted(vec![check("daemon", false)]));
    assert_eq!(red.code(), EXIT_OPERATIONAL);
}

fn carrying(id: Option<u64>, payload: ResponsePayload) -> Response {
    Response { v: 1, id, payload }
}

fn log_line(id: Option<u64>) -> Response {
    carrying(id, ResponsePayload::LogLine { line: "x".into() })
}

fn gone(id: Option<u64>) -> Response {
    Response::error(id, ErrorKind::Internal, "gone".to_string())
}

#[test]
fn log_frames_are_told_apart() {
    assert_eq!(fetch_step(log_line(Some(2)), 2), LogStep::Print("x".to_string()));
    assert_eq!(fetch_step(Response::ack(Some(2)), 2), LogStep::Done);
    assert_eq!(
        fetch_step(Response::event(Event::PresetsChanged), 2),
        LogStep::Skip
    );
    assert_eq!(
        fetch_step(Response::hello_ack(1, Some(2)), 2),
        LogStep::Unexpected(ResponsePayload::HelloAck)
    );
    assert_eq!(
        fetch_step(gone(Some(2)), 2),
        LogStep::Fail {
            message: "gone".to_string()
        }
    );
    assert_eq!(follow_step(log_line(Some(3)), 3), LogStep::Print("x".to_string()));
    assert_eq!(follow_step(Response::ack(Some(3)), 3), LogStep::Skip);
    assert_eq!(
        follow_step(gone(Some(3)), 3),
        LogStep::Fail {
            message: "gone".to_string()
        }
    );
}

#[test]
fn log_frames_of_another_exchange_are_skipped() {
    for id in [None, Some(1), Some(3)] {
        assert_eq!(fetch_step(log_line(id), 2), LogStep::Skip);
        assert_eq!(fetch_step(Response::ack(id), 2), LogStep::Skip);
        assert_eq!(fetch_step(gone(id), 2), LogStep::Skip);
        assert_eq!(follow_step(gone(id), 2), LogStep::Skip);
    }
    // A followed line may be pushed, without an id.
    assert_eq!(follow_step(log_line(None), 2), LogStep::Print("x".to_string()));
    assert_eq!(follow_step(log_line(Some(1)), 2), LogStep::Skip);
}

#[test]
fn transitions_read_as_one_line() {
    assert_eq!(
        transition_text(&Event::StateChanged {
            from: SupervisorState::Running,
            to: SupervisorState::Degraded,
            reason: Some(DegradedReason::VhidDaemonDown),
        }),
        Some(format!(
            "Running -> Degraded ({})",
            DegradedReason::VhidDaemonDown.describe()
        ))
    );
    assert_eq!(
        transition_text(&Event::StateChanged {
            from: SupervisorState::Stopped,
            to: SupervisorState::Starting,
            reason: None,
        })
        .as_deref(),
        Some("Stopped -> Starting")
    );
    assert_eq!(transition_text(&Event::PresetsChanged), None);
}

#[test]
fn requests_are_numbered_from_one() {
    let mut ids = RequestIds::new();
    assert_eq!(ids.request(RequestPayload::Start).id, Some(1));
    assert_eq!(ids.request(RequestPayload::Stop).id, Some(2));
    assert!(!ids.exhausted());
    match hello() {
        RequestPayload::Hello { min_v, max_v } => assert!(negotiate(min_v, max_v).is_some()),
        other => panic!("not a hello: {other:?}"),
    }
    assert_eq!(DEFAULT_SOCKET, "/var/run/kanatabar.sock");
}

#[test]
fn lines_are_framed_and_bounded() {
    assert_eq!(framed(b"{}".to_vec()), b"{}\n".to_vec());
    assert_eq!(check_line(b"{}\n"), Ok(()));
    assert_eq!(check_line(b""), Err(LineError::Closed));
    // The cap does not count the line feed.
    assert_eq!(check_line(&vec![b'x'; MAX_LINE_BYTES + 1]), Ok(()));
    assert_eq!(check_line(&vec![b'x'; MAX_LINE_BYTES + 2]), Err(LineError::Oversize));
    // What is framed up to the cap is accepted.
    assert_eq!(check_line(&framed(vec![b'x'; MAX_LINE_BYTES])), Ok(()));
    assert_eq!(
        check_line(&framed(vec![b'x'; MAX_LINE_BYTES + 1])),
        Err(LineError::Oversize)
    );
    assert_eq!(LineError::Closed.describe(), "daemon closed the connection");
}

/// What a client gets that reads the frames until the reply is there.
fn reply_among(frames: Vec<Response>, awaiting: u64) -> Option<ResponsePayload> {
    for response in frames {
        if let Frame::Reply(payload) = frame_of(response, awaiting) {
            return Some(payload);
        }
    }
    None
}

#[test]
fn the_first_frame_that_echoes_the_id_is_the_reply() {
    let mut ids = RequestIds::new();
    let first = ids.upcoming();
    assert_eq!(ids.request(RequestPayload::GetStatus).id, Some(first));
    let second = ids.upcoming();
    assert_eq!(ids.request(RequestPayload::Stop).id, Some(second));
    assert_ne!(first, second);
    let frames = || {
        vec![
            Response::event(Event::PresetsChanged),
            // The late answer to another request, and one that echoes no id.
            Response::ack(Some(first)),
            gone(None),
            carrying(Some(second), ResponsePayload::Event(Event::PresetsChanged)),
            gone(Some(second)),
            Response::ack(Some(second)),
        ]
    };
    assert_eq!(reply_among(frames(), second), Some(gone(Some(second)).payload));
    assert_eq!(reply_among(frames(), first), Some(ResponsePayload::Ack));
    assert_eq!(reply_among(frames(), 9), None);
    assert_eq!(
        frame_of(gone(None), second),
        Frame::Other(gone(None).payload)
    );
    assert_eq!(
        frame_of(Response::ack(Some(first)), second),
        Frame::Other(ResponsePayload::Ack)
    );
}

#[test]
fn failures_are_reported_in_one_line() {
    assert_eq!(
        cannot_connect("/tmp/k.sock", "no such file"),
        "cannot connect to daemon at /tmp/k.sock: no such file"
    );
    assert_eq!(error_line("gone"), "error: gone");
}

#[test]
fn refusals_name_the_exchange() {
    assert_eq!(
        Exchange::Hello.rejected("old"),
        "daemon rejected handshake: old"
    );
    assert_eq!(Exchange::Subscribe.rejected("no"), "subscribe rejected: no");
    assert_eq!(Exchange::GetStatus.rejected("no"), "GetStatus failed: no");
    assert_eq!(Exchange::ListPresets.rejected("no"), "ListPresets failed: no");
}

#[test]
fn replies_and_events_are_told_apart() {
    let event = Response::event(Event::PresetsChanged);
    assert_eq!(frame_of(event, 3), Frame::Event(Event::PresetsChanged));
    assert_eq!(
        frame_of(Response::ack(Some(3)), 3),
        Frame::Reply(ResponsePayload::Ack)
    );
    assert_eq!(
        hello_answer(Response::hello_ack(1, None).payload),
        Answer::Granted(())
    );
    let rejected = Response::error(None, ErrorKind::Incompatible, "old".to_string());
    assert_eq!(
        hello_answer(rejected.payload),
        Answer::Rejected("old".to_string())
    );
    assert_eq!(
        status_answer(Response::status(None, status(SupervisorState::Paused)).payload),
        Answer::Granted(status(SupervisorState::Paused))
    );
    assert_eq!(
        presets_answer(ResponsePayload::Presets { presets: vec![] }),
        Answer::Granted(vec![])
    );
    assert_eq!(
        doctor_answer(ResponsePayload::DoctorReport { checks: vec![] }),
        Answer::Granted(vec![])
    );
    assert_eq!(
        devices_answer(ResponsePayload::Ack),
        Answer::Unexpected(ResponsePayload::Ack)
    );
    assert_eq!(ErrorKind::PathRejected.name(), "PathRejected");
}

#[test]
fn the_lock_lives_in_the_home() {
    assert_eq!(
        single_instance::default_path(Some("/Users/a")),
        "/Users/a/Library/Application Support/KanataBar/tray.lock"
    );
}
