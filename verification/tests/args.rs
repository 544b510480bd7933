//! The command line.

use project_launcher::args::{parse, ArgsError, Mode, ShortcutLocation, USAGE};

fn parse_strs(args: &[&str]) -> Result<Mode, ArgsError> {
    let args: Vec<Option<String>> = args.iter().map(|a| Some(a.to_string())).collect();
    parse(&args)
}

#[test]
fn no_args_is_gui() {
    assert_eq!(parse_strs(&[]).unwrap(), Mode::Gui);
}

#[test]
fn parses_modes() {
    assert_eq!(parse_strs(&["--resident"]).unwrap(), Mode::Resident);
    assert_eq!(parse_strs(&["--settings"]).unwrap(), Mode::Settings);
    assert_eq!(
        parse_strs(&["--profile", "{11111111-2222-3333-4444-555555555555}"]).unwrap(),
        Mode::Profile("{11111111-2222-3333-4444-555555555555}".to_string())
    );
    assert_eq!(
        parse_strs(&["--profile=11111111-2222-3333-4444-555555555555"]).unwrap(),
        Mode::Profile("11111111-2222-3333-4444-555555555555".to_string())
    );
}

#[test]
fn rejects_bad_guid() {
    assert!(parse_strs(&["--profile", "abc"]).is_err());
    assert!(parse_strs(&["--profile="]).is_err());
}

#[test]
fn rejects_missing_value_and_unknown_args() {
    assert!(parse_strs(&["--profile"]).is_err());
    assert!(parse_strs(&["--bogus"]).is_err());
    assert!(parse_strs(&["file.txt"]).is_err());
}

#[test]
fn rejects_multiple_modes() {
    assert!(parse_strs(&["--resident", "--settings"]).is_err());
    // The location word after --shortcut must not hide a second mode.
    assert!(
        parse_strs(&[
            "--shortcut",
            "{11111111-2222-3333-4444-555555555555}",
            "--resident"
        ])
        .is_err()
    );
}

const GUID: &str = "{11111111-2222-3333-4444-555555555555}";

#[test]
fn parses_shortcut_default_desktop() {
    assert_eq!(
        parse_strs(&["--shortcut", GUID]).unwrap(),
        Mode::Shortcut {
            id: GUID.to_string(),
            location: ShortcutLocation::Desktop
        }
    );
    assert_eq!(
        parse_strs(&["--shortcut=11111111-2222-3333-4444-555555555555"]).unwrap(),
        Mode::Shortcut {
            id: "11111111-2222-3333-4444-555555555555".to_string(),
            location: ShortcutLocation::Desktop
        }
    );
    // The = form accepts the same optional location word.
    assert_eq!(
        parse_strs(&[
            "--shortcut=11111111-2222-3333-4444-555555555555",
            "startmenu"
        ])
        .unwrap(),
        Mode::Shortcut {
            id: "11111111-2222-3333-4444-555555555555".to_string(),
            location: ShortcutLocation::StartMenu
        }
    );
}

#[test]
fn parses_shortcut_locations() {
    for (word, loc) in [
        ("desktop", ShortcutLocation::Desktop),
        ("startmenu", ShortcutLocation::StartMenu),
        ("both", ShortcutLocation::Both),
    ] {
        assert_eq!(
            parse_strs(&["--shortcut", GUID, word]).unwrap(),
            Mode::Shortcut {
                id: GUID.to_string(),
                location: loc
            }
        );
    }
}

#[test]
fn rejects_bad_shortcut_args() {
    assert!(parse_strs(&["--shortcut"]).is_err());
    assert!(parse_strs(&["--shortcut", "abc"]).is_err());
    assert!(parse_strs(&["--shortcut="]).is_err());
    // An unknown word after the GUID is not a location and must error.
    assert!(parse_strs(&["--shortcut", GUID, "somewhere"]).is_err());
}

#[test]
fn args_errors_have_exact_messages() {
    let message = |args: &[&str]| parse_strs(args).unwrap_err().message;
    assert_eq!(message(&["--bogus"]), "unknown argument \"--bogus\"");
    assert_eq!(message(&["--profile"]), "--profile requires a GUID value");
    assert_eq!(
        message(&["--shortcut=a\"b"]),
        "--shortcut expects a GUID like {XXXXXXXX-XXXX-XXXX-XXXX-XXXXXXXXXXXX}, got \"a\\\"b\""
    );
    assert_eq!(message(&["--resident", "--resident"]), "only one mode may be given");
    // The second mode is read first, so its own error wins.
    assert_eq!(message(&["--resident", "--profile"]), "--profile requires a GUID value");
    // The word after the GUID is no location, and no argument either.
    assert_eq!(message(&["--shortcut", GUID, "somewhere"]), "unknown argument \"somewhere\"");
}

#[test]
fn args_must_be_unicode() {
    assert_eq!(parse(&[None]).unwrap_err().message, "argument is not valid Unicode");
    let args = [Some("--profile".to_string()), None];
    assert_eq!(parse(&args).unwrap_err().message, "--profile requires a GUID value");
    // What follows a GUID and is not Unicode is no location word.
    let args = [Some("--shortcut".to_string()), Some(GUID.to_string()), None];
    assert_eq!(parse(&args).unwrap_err().message, "argument is not valid Unicode");
}

#[test]
fn args_errors_show_the_usage() {
    let text = parse_strs(&["x"]).unwrap_err().text();
    assert_eq!(text, format!("unknown argument \"x\"\n\n{USAGE}"));
    assert!(USAGE.starts_with("Usage:\n  ProjectLauncher.exe  "));
    assert!(USAGE.ends_with("location: desktop (default) | startmenu | both"));
}
