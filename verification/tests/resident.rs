//! The resident's decisions.

use project_launcher::actions::{ActionError, Launch};
use project_launcher::config::{Action, ActionKind, CommandShell, Config, Profile};
use project_launcher::ipc::{encode, IpcRequest, IPC_MAGIC};
use project_launcher::profile::{find_profile, Recorder};
use project_launcher::resident::{
    answer_request, called, claim_worker, copy_data_units, dispatch_profile, finished_line, instance_claimed,
    launch_action, loop_end, ready_line, release_worker, request_answer, requested_profile, run,
    run_profile, started_line, tray_tip, window_event, Dispatch, ResidentError, ResidentState,
    StartStep, WindowEvent, WindowStep, MAX_CONCURRENT_WORKERS, WM_TRAYICON,
};
use project_launcher::storage::ConfigError;
use serde_json::Value;

fn text(value: &Value, key: &str) -> Result<String, String> {
    match value.get(key).and_then(|v| v.as_str()) {
        Some(text) => Ok(text.to_string()),
        None => Err(format!("missing field `{key}`")),
    }
}

fn read_action(value: &Value) -> Result<Action, String> {
    let kind = match text(value, "type")?.as_str() {
        "application" => ActionKind::Application {
            path: text(value, "path")?,
            arguments: text(value, "arguments").unwrap_or_default(),
            working_directory: text(value, "working_directory").ok(),
        },
        "folder" => ActionKind::Folder { path: text(value, "path")? },
        "file" => ActionKind::File { path: text(value, "path")? },
        "url" => ActionKind::Url { url: text(value, "url")? },
        "command" => ActionKind::Command {
            shell: match text(value, "shell")?.as_str() {
                "cmd" => CommandShell::Cmd,
                "powershell" => CommandShell::PowerShell,
                other => return Err(format!("unknown variant `{other}`")),
            },
            command: text(value, "command")?,
        },
        "wait" => ActionKind::Wait {
            milliseconds: value["milliseconds"].as_u64().ok_or("missing field `milliseconds`")?,
        },
        other => return Err(format!("unknown variant `{other}`")),
    };
    Ok(Action {
        id: text(value, "id")?,
        disabled: value["disabled"].as_bool().unwrap_or(false),
        kind,
    })
}

fn items<'a>(value: &'a Value, key: &str) -> &'a [Value] {
    match value[key].as_array() {
        Some(items) => items.as_slice(),
        None => &[],
    }
}

/// Reads a config document, for the parts of the JSON that the tests use.
fn read_config(json: &str) -> Result<Config, String> {
    let value: Value = serde_json::from_str(json).map_err(|e| e.to_string())?;
    let mut profiles = Vec::new();
    for p in items(&value, "profiles") {
        let mut actions = Vec::new();
        for a in items(p, "actions") {
            actions.push(read_action(a)?);
        }
        profiles.push(Profile { id: text(p, "id")?, name: text(p, "name")?, actions });
    }
    let version = value["version"].as_u64().ok_or("missing field `version`")?;
    Ok(Config { version: version as u32, profiles })
}

const CONFIG: &str = r#"{
    "version": 1,
    "profiles": [
        {
            "id": "{11111111-2222-3333-4444-555555555555}",
            "name": "Worker",
            "actions": [
                { "id": "w1", "type": "wait", "milliseconds": 0 },
                { "id": "w2", "type": "wait", "milliseconds": 0 },
                { "id": "off", "type": "wait", "milliseconds": 0, "disabled": true }
            ]
        }
    ]
}"#;

const PROFILE_ID: &str = "{11111111-2222-3333-4444-555555555555}";

const UNKNOWN_ID: &str = "{99999999-8888-7777-6666-555555555555}";

fn parsed(json: &str) -> Config {
    Config::parse(json, read_config).unwrap()
}

fn state() -> ResidentState {
    ResidentState::new(parsed(CONFIG))
}

fn ok_launcher() -> Recorder {
    Recorder::new(vec![])
}

fn failing_launcher() -> Recorder {
    Recorder::new(vec![("w1".to_string(), "boom".to_string())])
}

fn launched(recorder: &Recorder) -> Vec<&str> {
    recorder.actions.iter().map(|a| a.id.as_str()).collect()
}

fn no_load() -> Result<Config, ConfigError> {
    panic!("the config was loaded")
}

#[test]
fn state_exposes_config_loaded_once() {
    let mut state = state();
    assert_eq!(state.profile_count(), 1);
    let (config, line) = state.current_config(Some(7), no_load);
    assert!(find_profile(config, PROFILE_ID).is_some());
    assert!(line.is_none());
}

/// Request-time reload: a changed file is picked up, an unchanged one is
/// served from memory, and a broken rewrite keeps the last valid config.
#[test]
fn reloads_config_only_when_the_file_changes() {
    const OTHER_ID: &str = "{99999999-8888-7777-6666-555555555555}";
    let mut state =
        ResidentState::with_path(parsed(CONFIG), "C:\\config.json".to_string(), Some(1));

    // Same mtime -> cached copy.
    let (first, line) = state.current_config(Some(1), no_load);
    assert!(find_profile(first, OTHER_ID).is_none());
    assert!(line.is_none());

    // New mtime -> reload picks up the added profile.
    let v2 = format!(
        r#"{{"version":1,"profiles":[{},{{"id":"{OTHER_ID}","name":"Added","actions":[]}}]}}"#,
        r#"{"id":"{11111111-2222-3333-4444-555555555555}","name":"Worker","actions":[]}"#
    );
    let (second, line) = state.current_config(Some(2), || Ok(parsed(&v2)));
    assert!(find_profile(second, OTHER_ID).is_some());
    assert_eq!(second.profiles.len(), 2);
    assert_eq!(line.unwrap(), "[resident] config reloaded from C:\\config.json");

    // Broken rewrite -> last valid config is kept.
    let broken = || {
        Err(ConfigError::Parse { path: "p".to_string(), source: "s".to_string() })
    };
    let (third, line) = state.current_config(Some(3), broken);
    assert!(find_profile(third, OTHER_ID).is_some());
    assert_eq!(
        line.unwrap(),
        "[resident] config reload failed: config file p is not valid JSON: s; \
         keeping previous config"
    );

    // The broken file is tried again at the next request.
    let (_, line) = state.current_config(Some(3), broken);
    assert!(line.is_some());
    // A file that went back is not.
    let (_, line) = state.current_config(Some(2), no_load);
    assert!(line.is_none());
}

#[test]
fn worker_skips_disabled_and_reports_partial_failure() {
    let mut state = state();
    let (config, _) = state.current_config(None, no_load);

    let mut launcher = ok_launcher();
    let ok = run_profile(config, PROFILE_ID, &mut launcher).unwrap();
    assert_eq!(launched(&launcher), ["w1", "w2"]);
    assert_eq!(ok.outcomes.len(), 2);
    assert_eq!(ok.skipped_disabled, 1);
    assert!(ok.is_success());

    let failed = run_profile(config, PROFILE_ID, &mut failing_launcher()).unwrap();
    assert_eq!(failed.failure_count(), 1);
    assert!(!failed.is_success());
    assert_eq!(
        finished_line(PROFILE_ID, &failed),
        "[resident] profile {11111111-2222-3333-4444-555555555555} finished: \
         1 of 2 action(s) failed, 1 disabled skipped"
    );
    assert_eq!(
        started_line(&config.profiles[0], PROFILE_ID),
        "[resident] profile 'Worker' ({11111111-2222-3333-4444-555555555555}) started"
    );
}

#[test]
fn worker_reports_unknown_profile_id() {
    let mut state = state();
    let (config, _) = state.current_config(None, no_load);
    let mut launcher = ok_launcher();
    assert!(run_profile(config, UNKNOWN_ID, &mut launcher).is_none());
    assert!(launched(&launcher).is_empty());
}

#[test]
fn dispatch_rejects_unknown_profile_without_spawning() {
    let mut state = state();
    let (config, _) = state.current_config(None, no_load);
    let dispatch = dispatch_profile(
        config,
        UNKNOWN_ID,
        || panic!("a slot was claimed"),
        |_id: &str| panic!("a worker was started"),
    );
    assert!(!dispatch.is_accepted());
    assert!(matches!(dispatch, Dispatch::UnknownProfile));
    assert!(dispatch.log_line().is_none());
}

/// Flood protection: once MAX_CONCURRENT_WORKERS slots are taken, dispatch
/// must refuse instead of spawning yet another thread.
#[test]
fn dispatch_rejects_requests_beyond_the_worker_cap() {
    let mut state = state();
    let (config, _) = state.current_config(None, no_load);
    let dispatch = dispatch_profile(
        config,
        PROFILE_ID,
        || claim_worker(MAX_CONCURRENT_WORKERS).is_some(),
        |_id: &str| panic!("a worker was started"),
    );
    assert!(!dispatch.is_accepted());
    assert_eq!(
        dispatch.log_line().unwrap(),
        "[resident] rejected run request: 16 workers already active"
    );
    assert!(!dispatch.returns_slot());
}

#[test]
fn dispatch_runs_profile_on_a_detached_worker() {
    let mut state = state();
    let (config, _) = state.current_config(None, no_load);
    let mut launcher = ok_launcher();
    let mut held = 0;
    let dispatch = dispatch_profile(
        config,
        PROFILE_ID,
        || match claim_worker(held) {
            Some(now) => {
                held = now;
                true
            }
            None => false,
        },
        |id: &str| {
            run_profile(config, id, &mut launcher);
            Ok(())
        },
    );
    assert!(dispatch.is_accepted());
    assert_eq!(launched(&launcher).len(), 2);
    assert_eq!(release_worker(held), 0);
}

#[test]
fn dispatch_hands_the_slot_back_when_no_thread_started() {
    let config = parsed(CONFIG);
    let dispatch = dispatch_profile(&config, PROFILE_ID, || true, |_| Err("no memory".to_string()));
    assert!(!dispatch.is_accepted());
    assert!(dispatch.returns_slot());
    assert_eq!(
        dispatch.log_line().unwrap(),
        "[resident] failed to spawn a profile worker: no memory"
    );
}

#[test]
fn workers_never_pass_the_bound() {
    let mut held = 0;
    for _ in 0..40 {
        if let Some(now) = claim_worker(held) {
            held = now;
        }
    }
    assert_eq!(held, MAX_CONCURRENT_WORKERS);
    held = release_worker(held);
    assert_eq!(claim_worker(held), Some(MAX_CONCURRENT_WORKERS));
    // Once every worker is done, all slots are free again.
    for _ in 0..MAX_CONCURRENT_WORKERS - 1 {
        held = release_worker(held);
    }
    assert_eq!(held, 0);
    assert_eq!(release_worker(claim_worker(held).unwrap()), held);
}

#[test]
fn production_launcher_runs_a_wait_action() {
    let action = Action {
        id: "w".to_string(),
        disabled: false,
        kind: ActionKind::Wait { milliseconds: 1 },
    };
    let mut waited = 0;
    assert!(launch_action(&action, |launch| match launch {
        Launch::Sleep { milliseconds } => {
            waited = milliseconds;
            Ok(())
        }
        _ => Err(ActionError::UnsupportedPlatform),
    })
    .is_ok());
    assert_eq!(waited, 1);
}

#[test]
fn launcher_reports_errors_as_text() {
    let action = Action {
        id: "f".to_string(),
        disabled: false,
        kind: ActionKind::File { path: "a\0b".to_string() },
    };
    assert_eq!(
        launch_action(&action, |_| panic!("it was launched")).unwrap_err(),
        "invalid input: string contains an interior NUL byte: \"a\\0b\""
    );
    let action = Action { kind: ActionKind::File { path: "x".to_string() }, ..action };
    assert_eq!(
        launch_action(&action, |_| Err(ActionError::ShellExecute { code: 2 })).unwrap_err(),
        "ShellExecuteW failed (2: file not found)"
    );
}

#[test]
fn requests_are_checked_before_they_run() {
    assert_eq!(copy_data_units(true, 8192), Some(4096));
    assert_eq!(copy_data_units(true, 8194), None);
    assert_eq!(copy_data_units(true, 3), None);
    assert_eq!(copy_data_units(true, 0), None);
    assert_eq!(copy_data_units(false, 8), None);

    let payload = |profile: &str| {
        encode(&IpcRequest::RunProfile { profile: profile.to_string() }).unwrap()
    };
    let read = |json: &str| {
        let value: Value = serde_json::from_str(json).map_err(|e| e.to_string())?;
        Ok(IpcRequest::RunProfile { profile: text(&value, "profile")? })
    };
    assert_eq!(requested_profile(IPC_MAGIC, &payload(PROFILE_ID), read).unwrap(), PROFILE_ID);
    assert_eq!(
        requested_profile(IPC_MAGIC, &payload("a\"b"), read).unwrap_err(),
        "[resident] rejected IPC request: \"a\\\"b\" is not a GUID"
    );
    assert_eq!(
        requested_profile(1, &payload(PROFILE_ID), read).unwrap_err(),
        "[resident] rejected IPC payload: unexpected IPC magic 0x1"
    );
    assert_eq!(request_answer(&Dispatch::Started, "p"), (1, None));
    assert_eq!(
        request_answer(&Dispatch::UnknownProfile, "p"),
        (0, Some("[resident] rejected IPC run request for profile p".to_string()))
    );
}

#[test]
fn requests_are_answered_by_what_became_of_them() {
    let payload = |profile: &str| {
        encode(&IpcRequest::RunProfile { profile: profile.to_string() }).unwrap()
    };
    let read = |json: &str| {
        let value: Value = serde_json::from_str(json).map_err(|e| e.to_string())?;
        Ok(IpcRequest::RunProfile { profile: text(&value, "profile")? })
    };
    let unread = |_: &str| -> Result<IpcRequest, String> { panic!("the payload was read") };
    let unasked = |_: &str| -> Dispatch { panic!("the request was dispatched") };
    let data = payload(PROFILE_ID);
    let bytes = 2 * data.len() as u32;

    let mut asked = String::new();
    let started = |id: &str| {
        asked = id.to_string();
        Dispatch::Started
    };
    assert_eq!(
        answer_request(true, bytes, IPC_MAGIC, &data, read, true, started),
        (1, None)
    );
    assert_eq!(asked, PROFILE_ID);
    for refused in [Dispatch::UnknownProfile, Dispatch::AtCapacity] {
        assert_eq!(
            answer_request(true, bytes, IPC_MAGIC, &data, read, true, |_| refused),
            (0, Some(format!("[resident] rejected IPC run request for profile {PROFILE_ID}")))
        );
    }
    // Without the context nothing is dispatched.
    assert_eq!(
        answer_request(true, bytes, IPC_MAGIC, &data, read, false, unasked),
        (0, None)
    );
    // What may not be copied is not even read.
    for (has_data, byte_len) in [(false, bytes), (true, 0), (true, 3), (true, 8194)] {
        assert_eq!(
            answer_request(has_data, byte_len, IPC_MAGIC, &data, unread, true, unasked),
            (0, None)
        );
    }
    assert_eq!(
        answer_request(true, bytes, 1, &data, unread, true, unasked),
        (0, Some("[resident] rejected IPC payload: unexpected IPC magic 0x1".to_string()))
    );
    let data = payload("p");
    assert_eq!(
        answer_request(true, 2 * data.len() as u32, IPC_MAGIC, &data, read, true, unasked),
        (0, Some("[resident] rejected IPC request: \"p\" is not a GUID".to_string()))
    );
}

#[test]
fn window_messages_are_sorted() {
    assert_eq!(window_event(0x4A, 0, 0), WindowEvent::CopyData);
    assert_eq!(window_event(WM_TRAYICON, 0x205, 0), WindowEvent::TrayMenu);
    assert_eq!(window_event(WM_TRAYICON, 0x7B, 0), WindowEvent::TrayMenu);
    assert_eq!(window_event(WM_TRAYICON, 0x201, 0), WindowEvent::Ignore);
    assert_eq!(window_event(0xC123, 0, 0xC123), WindowEvent::RestoreTray);
    assert_eq!(window_event(0, 0, 0), WindowEvent::Default);
    assert_eq!(window_event(0x10, 0, 0xC123), WindowEvent::Close);
    assert_eq!(window_event(2, 0, 0xC123), WindowEvent::Quit);
    assert!(loop_end(5, 0).is_none());
    assert!(matches!(loop_end(0, 0), Some(Ok(()))));
    match loop_end(-1, 9) {
        Some(Err(e)) => assert_eq!(e.message(), "GetMessageW failed (GetLastError=9)"),
        other => panic!("{other:?}"),
    }
}

#[test]
fn a_second_instance_is_told_apart_from_a_failure() {
    assert!(instance_claimed(false, 0).is_ok());
    assert!(matches!(instance_claimed(false, 183), Err(ResidentError::AlreadyRunning)));
    assert_eq!(
        instance_claimed(true, 183).unwrap_err().message(),
        "CreateMutexW failed (GetLastError=183)"
    );
}

#[test]
fn startup_goes_on_without_a_tray_icon() {
    let win32 = || ResidentError::Win32 { api: "Shell_NotifyIconW(NIM_ADD)", code: 2 };
    let mut step = run();
    for _ in 0..4 {
        step = step.next(Ok(()));
    }
    assert!(matches!(step, StartStep::AddTray));
    step = step.next(Err(win32()));
    match &step {
        StartStep::WatchTaskbar { line: Some(line) } => assert_eq!(
            line,
            "[resident] tray icon registration failed, continuing without it: \
             Shell_NotifyIconW(NIM_ADD) failed (GetLastError=2)"
        ),
        other => panic!("{other:?}"),
    }
    step = step.next(Ok(()));
    assert!(matches!(step, StartStep::MessageLoop));
    step = step.next(Ok(()));
    assert!(matches!(step, StartStep::Ended { result: Ok(()) }));
    assert_eq!(ready_line(3), "Resident started: 3 profile(s) loaded. Waiting for messages.");
}

#[test]
fn startup_stops_at_any_other_failure() {
    for n in [0, 1, 2, 3, 5] {
        let mut step = run();
        for _ in 0..n {
            step = step.next(Ok(()));
        }
        step = step.next(Err(ResidentError::UnsupportedPlatform)).next(Ok(()));
        match step {
            StartStep::Ended { result: Err(e) } => {
                assert_eq!(e.message(), "the resident requires Windows")
            }
            other => panic!("{other:?}"),
        }
    }
}

#[test]
fn tray_tips_stay_terminated() {
    let tip = tray_tip(128);
    assert_eq!(String::from_utf16(&tip[..16]).unwrap(), "Project Launcher");
    assert_eq!(tip.len(), 17);
    assert_eq!(tray_tip(8).len(), 7);
    assert_eq!(tray_tip(1).len(), 0);
}

#[test]
fn a_failed_window_leaves_no_class() {
    let step = WindowStep::Module.next(false, 0).next(false, 0);
    assert!(matches!(step, WindowStep::Window));
    let step = step.next(true, 8);
    assert!(matches!(step, WindowStep::Unregister { .. }));
    match step.next(false, 0) {
        WindowStep::Failed { error } => {
            assert_eq!(error.message(), "CreateWindowExW failed (GetLastError=8)")
        }
        other => panic!("{other:?}"),
    }
    for (step, api) in [
        (WindowStep::Module, "GetModuleHandleW"),
        (WindowStep::Class, "RegisterClassW"),
    ] {
        match step.next(true, 1) {
            WindowStep::Failed { error } => {
                assert_eq!(error.message(), format!("{api} failed (GetLastError=1)"))
            }
            other => panic!("{other:?}"),
        }
    }
    let step = WindowStep::Window.next(false, 0).next(false, 0);
    assert!(matches!(step, WindowStep::Made));
    assert!(called("LoadIconW", false, 5).is_ok());
    assert_eq!(
        called("LoadIconW", true, 5).unwrap_err().message(),
        "LoadIconW failed (GetLastError=5)"
    );
}
