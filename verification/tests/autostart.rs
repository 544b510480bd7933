//! Starting the resident at logon.

use project_launcher::autostart;
use project_launcher::autostart::{
    is_enabled, key_created, key_opened, run_command, value_deleted, value_written,
    AutostartError, RunEntry, ERROR_FILE_NOT_FOUND, RUN_KEY, VALUE_NAME,
};

fn exe() -> Result<Option<String>, String> {
    Ok(Some("C:\\Program Files\\ProjectLauncher.exe".to_string()))
}

#[test]
fn run_command_quotes_exe_and_passes_resident() {
    let cmd = run_command(exe()).unwrap();
    assert!(cmd.starts_with('"'));
    assert!(cmd.ends_with("\" --resident"));
    assert!(cmd.contains("ProjectLauncher"));
    assert_eq!(cmd, "\"C:\\Program Files\\ProjectLauncher.exe\" --resident");
}

/// Enable writes the value, disable removes it and leaves no residue.
#[test]
fn enable_then_disable_round_trips_registry() {
    let mut value: Option<Vec<u16>> = None;
    let apply = |entry: RunEntry, value: &mut Option<Vec<u16>>| match entry {
        RunEntry::Write { data } => *value = Some(data),
        RunEntry::Delete => *value = None,
    };
    let enabled = |value: &Option<Vec<u16>>| {
        let rc = if value.is_some() { 0 } else { ERROR_FILE_NOT_FOUND };
        is_enabled(0, || rc).unwrap()
    };
    apply(autostart::set(true, exe()).unwrap(), &mut value);
    assert!(enabled(&value));
    let data = value.clone().unwrap();
    assert_eq!(*data.last().unwrap(), 0);
    assert_eq!(
        String::from_utf16(&data[..data.len() - 1]).unwrap(),
        "\"C:\\Program Files\\ProjectLauncher.exe\" --resident"
    );
    apply(autostart::set(false, exe()).unwrap(), &mut value);
    assert!(!enabled(&value));
    // Removing an absent value is a no-op, and needs no executable.
    apply(autostart::set(false, Err("gone".to_string())).unwrap(), &mut value);
    assert!(!enabled(&value));
}

#[test]
fn an_unusable_executable_path_is_reported() {
    let err = autostart::set(true, Err("gone".to_string())).unwrap_err();
    assert_eq!(err.message(), "cannot resolve the exe path: gone");
    let err = autostart::set(true, Ok(None)).unwrap_err();
    assert!(matches!(err, AutostartError::NonUnicodeExePath));
    assert_eq!(err.message(), "the exe path is not valid Unicode");
}

#[test]
fn registry_answers_are_checked() {
    assert!(!is_enabled(2, || panic!("the value was asked for")).unwrap());
    assert_eq!(
        is_enabled(5, || 0).unwrap_err().message(),
        "RegOpenKeyExW failed (WIN32_ERROR=5)"
    );
    assert_eq!(
        is_enabled(0, || 6).unwrap_err().message(),
        "RegQueryValueExW failed (WIN32_ERROR=6)"
    );
    assert!(key_opened(0).unwrap());
    assert!(!key_opened(2).unwrap());
    assert!(key_created(0).is_ok());
    assert_eq!(
        key_created(2).unwrap_err().message(),
        "RegCreateKeyExW failed (WIN32_ERROR=2)"
    );
    assert!(value_written(0).is_ok());
    assert_eq!(
        value_written(2).unwrap_err().message(),
        "RegSetValueExW failed (WIN32_ERROR=2)"
    );
    assert!(value_deleted(0).is_ok());
    assert!(value_deleted(2).is_ok());
    assert_eq!(
        value_deleted(5).unwrap_err().message(),
        "RegDeleteValueW failed (WIN32_ERROR=5)"
    );
    assert_eq!(RUN_KEY, "Software\\Microsoft\\Windows\\CurrentVersion\\Run");
    assert_eq!(VALUE_NAME, "ProjectLauncher");
}
