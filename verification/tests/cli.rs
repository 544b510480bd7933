//! What the command line reports.

use project_launcher::args;
use project_launcher::cli::{
    chosen_profile, fail, forwarded, profile_report, resident_exit, running_line,
    shortcut_report, ShortcutRun,
};
use project_launcher::config::{Config, Profile};
use project_launcher::ipc::{ForwardOutcome, IpcError};
use project_launcher::profile::{ActionOutcome, ActionStatus, ProfileResult};
use project_launcher::resident::ResidentError;
use project_launcher::shortcut::{ShortcutError, ShortcutLocation};
use project_launcher::storage::ConfigError;

fn outcome(id: &str, error: Option<&str>) -> ActionOutcome {
    ActionOutcome {
        action_id: id.to_string(),
        status: match error {
            None => ActionStatus::Succeeded,
            Some(e) => ActionStatus::Failed(e.to_string()),
        },
    }
}

#[test]
fn reports_list_outcomes_and_sum_up() {
    let result = ProfileResult {
        outcomes: vec![outcome("a", None), outcome("b", Some("boom"))],
        skipped_disabled: 2,
    };
    let (lines, code) = profile_report(&result);
    assert_eq!(
        lines,
        [
            "  [ok]     a",
            "  [FAILED] b: boom",
            "  (2 disabled action(s) skipped)",
            "Profile finished: 1 of 2 action(s) failed.",
        ]
    );
    assert_eq!(code, 1);
    let result = ProfileResult { outcomes: vec![outcome("a", None)], skipped_disabled: 0 };
    let (lines, code) = profile_report(&result);
    assert_eq!(lines, ["  [ok]     a", "Profile finished: all 1 action(s) succeeded."]);
    assert_eq!(code, 0);
}

#[test]
fn exit_codes_of_the_resident() {
    let exit = resident_exit(Ok(()));
    assert_eq!((exit.output.unwrap().as_str(), exit.code), ("Resident stopped.", 0));
    let exit = resident_exit(Err(ResidentError::AlreadyRunning));
    assert_eq!(
        (exit.output.unwrap().as_str(), exit.code),
        ("A Project Launcher resident is already running.", 0)
    );
    let exit = resident_exit(Err(ResidentError::Win32 { api: "LoadIconW", code: 3 }));
    assert_eq!(
        (exit.error.unwrap().as_str(), exit.code),
        ("error: LoadIconW failed (GetLastError=3)", 2)
    );
    assert_eq!(
        ResidentError::AlreadyRunning.message(),
        "another Project Launcher resident is already running"
    );
    let exit = fail("x");
    assert_eq!((exit.error.unwrap().as_str(), exit.code), ("error: x", 2));
}

#[test]
fn exit_codes_of_a_forwarded_request() {
    assert!(forwarded("p", Ok(ForwardOutcome::NoResident)).is_none());
    let exit = forwarded("p", Ok(ForwardOutcome::Delivered)).unwrap();
    assert_eq!(
        (exit.output.unwrap().as_str(), exit.code),
        ("Forwarded the run request for profile p to the resident.", 0)
    );
    let exit = forwarded("p", Ok(ForwardOutcome::Rejected)).unwrap();
    assert_eq!(
        (exit.error.unwrap().as_str(), exit.code),
        (
            "error: the resident rejected the request for profile p \
             (unknown profile id, or blocked by UIPI integrity levels)",
            2
        )
    );
    let exit = forwarded("p", Err(IpcError::NotUtf16)).unwrap();
    assert_eq!(
        (exit.error.unwrap().as_str(), exit.code),
        ("error: IPC payload is not valid UTF-16", 2)
    );
}

fn config() -> Config {
    Config {
        version: 1,
        profiles: vec![Profile {
            id: "{11111111-2222-3333-4444-555555555555}".to_string(),
            name: "Dev".to_string(),
            actions: vec![],
        }],
    }
}

#[test]
fn profiles_are_chosen_by_id() {
    let loaded = Ok(config());
    let profile = chosen_profile(&loaded, "11111111-2222-3333-4444-555555555555").unwrap();
    assert_eq!(
        running_line(profile),
        "Running profile 'Dev' ({11111111-2222-3333-4444-555555555555})"
    );
    let exit = chosen_profile(&loaded, "a\"").unwrap_err();
    assert_eq!(
        (exit.error.unwrap().as_str(), exit.code),
        ("error: no profile with id \"a\\\"\" in the config", 2)
    );
    let loaded = Err(ConfigError::NoLocalAppData);
    let exit = chosen_profile(&loaded, "x").unwrap_err();
    assert_eq!(exit.code, 2);
}

#[test]
fn every_place_is_attempted() {
    let mut tried = Vec::new();
    let mut run = ShortcutRun::new(args::ShortcutLocation::Both);
    while let Some(place) = run.next() {
        tried.push(place);
        run.record(match place {
            ShortcutLocation::Desktop => Err(ShortcutError::UnsupportedPlatform),
            ShortcutLocation::StartMenu => Ok("C:\\p.lnk".to_string()),
        });
    }
    assert_eq!(tried, [ShortcutLocation::Desktop, ShortcutLocation::StartMenu]);
    let (lines, code) = shortcut_report(&run.made);
    assert_eq!(
        lines,
        [
            Err("error: shortcut creation requires Windows".to_string()),
            Ok("Created C:\\p.lnk".to_string()),
        ]
    );
    assert_eq!(code, 2);
}

#[test]
fn one_place_is_attempted_alone() {
    for (location, place) in [
        (args::ShortcutLocation::Desktop, ShortcutLocation::Desktop),
        (args::ShortcutLocation::StartMenu, ShortcutLocation::StartMenu),
    ] {
        let mut run = ShortcutRun::new(location);
        assert_eq!(run.next(), Some(place));
        run.record(Ok("x".to_string()));
        assert_eq!(run.next(), None);
        assert_eq!(run.made.len(), 1);
        assert_eq!(shortcut_report(&run.made).1, 0);
    }
}
