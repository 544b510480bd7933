//! Looking profiles up and running them.

use project_launcher::config::{Action, ActionKind, CommandShell, Config, Profile};
use project_launcher::profile::{
    execute_profile, find_profile, ActionOutcome, ActionStatus, FnLauncher, Launcher,
    Recorder,
};
use std::cell::RefCell;

fn action(id: &str, disabled: bool, kind: ActionKind) -> Action {
    Action {
        id: id.to_string(),
        disabled,
        kind,
    }
}

fn profile(actions: Vec<Action>) -> Profile {
    Profile {
        id: "{11111111-2222-3333-4444-555555555555}".to_string(),
        name: "Test".to_string(),
        actions,
    }
}

fn failing(id: &str, reason: &str) -> Recorder {
    Recorder::new(vec![(id.to_string(), reason.to_string())])
}

fn calls(recorder: &Recorder) -> Vec<&str> {
    recorder.actions.iter().map(|a| a.id.as_str()).collect()
}

fn wait(ms: u64) -> ActionKind {
    ActionKind::Wait { milliseconds: ms }
}

#[test]
fn finds_profile_regardless_of_case_and_braces() {
    let config = Config {
        version: 1,
        profiles: vec![profile(vec![])],
    };
    assert!(find_profile(&config, "{11111111-2222-3333-4444-555555555555}").is_some());
    assert!(find_profile(&config, "11111111-2222-3333-4444-555555555555").is_some());
    assert!(find_profile(&config, "aaaaaaaa-2222-3333-4444-555555555555").is_none());
}

#[test]
fn runs_actions_in_order_and_skips_disabled() {
    let p = profile(vec![
        action("a", false, wait(0)),
        action("b", true, wait(0)),
        action("c", false, wait(0)),
    ]);
    let mut recorder = Recorder::new(vec![]);
    let result = execute_profile(&p, &mut recorder);
    assert_eq!(calls(&recorder), ["a", "c"]);
    assert_eq!(result.skipped_disabled, 1);
    assert!(result.is_success());
}

#[test]
fn continues_after_failure_and_reports_partial_failure() {
    let p = profile(vec![
        action("a", false, wait(0)),
        action("boom", false, wait(0)),
        action("c", false, wait(0)),
    ]);
    let mut recorder = failing("boom", "launch failed");
    let result = execute_profile(&p, &mut recorder);
    assert_eq!(calls(&recorder), ["a", "boom", "c"]);
    assert_eq!(result.failure_count(), 1);
    assert!(!result.is_success());
    assert_eq!(
        result.outcomes[1].status,
        ActionStatus::Failed("launch failed".to_string())
    );
}

#[test]
fn all_disabled_is_a_noop_success() {
    let p = profile(vec![action("a", true, wait(0))]);
    let mut recorder = Recorder::new(vec![]);
    let result = execute_profile(&p, &mut recorder);
    assert!(calls(&recorder).is_empty());
    assert!(result.is_success());
}

#[test]
fn launcher_sees_the_action_kind() {
    let p = profile(vec![action(
        "cmd1",
        false,
        ActionKind::Command {
            shell: CommandShell::Cmd,
            command: "echo hi".to_string(),
        },
    )]);
    let mut recorder = Recorder::new(vec![]);
    execute_profile(&p, &mut recorder);
    let mut seen_command = false;
    for a in &recorder.actions {
        if let ActionKind::Command { command, .. } = &a.kind {
            seen_command = command == "echo hi";
        }
    }
    assert!(seen_command);
}

#[test]
fn lookup_finds_the_first_of_the_named_profiles() {
    let mut second = profile(vec![]);
    second.id = "{AAAAAAAA-2222-3333-4444-555555555555}".to_string();
    second.name = "Second".to_string();
    let config = Config { version: 1, profiles: vec![profile(vec![]), second] };
    assert_eq!(
        find_profile(&config, "aaaaaaaa-2222-3333-4444-555555555555").unwrap().name,
        "Second"
    );
    assert!(find_profile(&config, "{aaaaaaaa-2222-3333-4444-555555555555").is_none());
}

#[test]
fn outcomes_are_one_for_each_enabled_action() {
    let p = profile(vec![
        action("a", true, wait(0)),
        action("b", false, wait(0)),
        action("c", true, wait(0)),
    ]);
    let mut recorder = failing("b", "no");
    let result = execute_profile(&p, &mut recorder);
    assert_eq!(recorder.results, [Err("no".to_string())]);
    assert_eq!(result.outcomes.len() + result.skipped_disabled, p.actions.len());
    assert_eq!(result.outcomes[0].action_id, "b");
    assert_eq!(result.failure_count(), 1);
    assert_eq!(result.outcomes[0].text(), "[FAILED] b: no");
    let ok = ActionOutcome { action_id: "b".to_string(), status: ActionStatus::Succeeded };
    assert_eq!(ok.text(), "[ok]     b");
}

/// A run adds to what the launcher was handed before.
#[test]
fn runs_follow_on_one_another() {
    let p = profile(vec![action("a", false, wait(0)), action("b", false, wait(0))]);
    let mut recorder = failing("a", "x");
    execute_profile(&p, &mut recorder);
    execute_profile(&p, &mut recorder);
    assert_eq!(calls(&recorder), ["a", "b", "a", "b"]);
    let x: Result<(), String> = Err("x".to_string());
    assert_eq!(recorder.results, [x.clone(), Ok(()), x, Ok(())]);
}

/// The function is asked once for each enabled action, in order.
#[test]
fn functions_are_asked_for_each_enabled_action() {
    let p = profile(vec![
        action("a", false, wait(1)),
        action("b", true, wait(2)),
        action("c", false, wait(3)),
    ]);
    let asked = RefCell::new(Vec::new());
    let mut launcher = FnLauncher::new(|a: &Action| {
        asked.borrow_mut().push(a.id.clone());
        if a.id == "a" {
            Err("busy".to_string())
        } else {
            Ok(())
        }
    });
    let result = execute_profile(&p, &mut launcher);
    assert_eq!(*asked.borrow(), ["a", "c"]);
    assert_eq!(result.outcomes[0].text(), "[FAILED] a: busy");
    assert_eq!(result.outcomes[1].text(), "[ok]     c");
}

/// The first entry for an id gives the reason.
#[test]
fn recorders_fail_what_they_are_told_to() {
    let entries = [("a", "first"), ("b", "other"), ("a", "second")];
    let entries = entries.iter().map(|e| (e.0.to_string(), e.1.to_string())).collect();
    let mut recorder = Recorder::new(entries);
    assert_eq!(recorder.launch(&action("a", false, wait(0))), Err("first".to_string()));
    assert_eq!(recorder.launch(&action("b", false, wait(0))), Err("other".to_string()));
    assert_eq!(recorder.launch(&action("c", false, wait(0))), Ok(()));
    assert_eq!(calls(&recorder), ["a", "b", "c"]);
}

/// Whatever fails, the same actions are handed over.
#[test]
fn failures_change_no_calls() {
    let p = profile(vec![
        action("a", false, wait(0)),
        action("b", true, wait(0)),
        action("c", false, wait(0)),
    ]);
    let mut good = Recorder::new(vec![]);
    let mut bad = failing("a", "x");
    let first = execute_profile(&p, &mut good);
    let second = execute_profile(&p, &mut bad);
    assert_eq!(calls(&good), calls(&bad));
    assert_eq!(first.outcomes.len(), second.outcomes.len());
    assert_eq!((first.failure_count(), second.failure_count()), (0, 1));
}
