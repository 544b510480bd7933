//! What actions hand to Windows.

use project_launcher::actions::{
    build_command_line, execute, process_created, run_command, shell_executable, shell_executed,
    system_directory_length, to_wide, ActionError, Launch,
};
use project_launcher::config::{Action, ActionKind, CommandShell};
use project_launcher::validation::is_absolute_windows_path;

fn to_string(buf: &[u16]) -> String {
    String::from_utf16(&buf[..buf.len() - 1]).unwrap()
}

#[test]
fn command_line_quotes_exe_and_appends_args_verbatim() {
    let buf = build_command_line("C:\\My Tools\\app.exe", "-a \"b c\" \\").unwrap();
    assert_eq!(to_string(&buf), "\"C:\\My Tools\\app.exe\" -a \"b c\" \\");
}

#[test]
fn command_line_without_args_is_just_quoted_exe() {
    let buf = build_command_line("app.exe", "").unwrap();
    assert_eq!(to_string(&buf), "\"app.exe\"");
}

#[test]
fn command_line_is_nul_terminated() {
    let buf = build_command_line("app.exe", "-x").unwrap();
    assert_eq!(*buf.last().unwrap(), 0);
}

#[test]
fn rejects_quoted_or_empty_exe_path() {
    assert!(build_command_line("a\"b.exe", "").is_err());
    assert!(build_command_line("", "").is_err());
}

/// `"C:\dir\" arg` would escape the closing quote and merge the argument
/// into the program name.
#[test]
fn rejects_exe_path_ending_with_separator() {
    assert!(build_command_line("C:\\Tools\\", "-x").is_err());
    assert!(build_command_line("C:/Tools/", "-x").is_err());
    assert!(build_command_line("C:\\Tools\\app.exe", "-x").is_ok());
}

#[test]
fn actions_rejects_interior_nul() {
    assert!(build_command_line("app.exe", "x\0y").is_err());
    assert!(to_wide("a\0b").is_err());
}

#[test]
fn utf16_conversion_handles_non_bmp() {
    let buf = build_command_line("C:\\日本語\\🦀.exe", "").unwrap();
    assert_eq!(to_string(&buf), "\"C:\\日本語\\🦀.exe\"");
}

/// Asks for a shell below the given system directory.
fn resolve(shell: CommandShell, dir: &str) -> Result<String, ActionError> {
    let mut buffer: Vec<u16> = dir.encode_utf16().collect();
    let written = buffer.len() as u32;
    buffer.push(0);
    let needed = system_directory_length(buffer.len() as u32, 0)?;
    shell_executable(shell, needed, written, &buffer, 0)
}

/// The shell must be an absolute path under the system directory, never a
/// bare file name that PATH or the current directory could redirect.
#[test]
fn shell_executable_resolves_to_absolute_system_path() {
    for (shell, exe) in [
        (CommandShell::Cmd, "cmd.exe"),
        (CommandShell::PowerShell, "powershell.exe"),
    ] {
        let resolved = resolve(shell, "C:\\Windows\\System32").unwrap();
        assert!(is_absolute_windows_path(&resolved), "{resolved} is not absolute");
        assert!(
            resolved.ends_with(exe),
            "{resolved} does not end with {exe}"
        );
        assert!(resolved.starts_with("C:\\Windows\\System32\\"), "{resolved}");
    }
}

#[test]
fn shell_paths_are_joined_with_one_separator() {
    assert_eq!(resolve(CommandShell::Cmd, "C:\\W").unwrap(), "C:\\W\\cmd.exe");
    assert_eq!(resolve(CommandShell::Cmd, "C:\\W\\").unwrap(), "C:\\W\\cmd.exe");
    assert_eq!(
        resolve(CommandShell::PowerShell, "C:\\W").unwrap(),
        "C:\\W\\WindowsPowerShell\\v1.0\\powershell.exe"
    );
}

#[test]
fn system_directory_answers_are_checked() {
    let err = system_directory_length(0, 5).unwrap_err();
    assert_eq!(err.message(), "GetSystemDirectoryW failed (GetLastError=5)");
    let err = system_directory_length(1025, 0).unwrap_err();
    assert_eq!(
        err.message(),
        "invalid input: GetSystemDirectoryW reported an implausible length of 1025 characters"
    );
    assert_eq!(system_directory_length(1024, 0).unwrap(), 1024);
    for written in [0, 3, 4] {
        let err = shell_executable(CommandShell::Cmd, 3, written, &[67, 58, 0], 6).unwrap_err();
        assert_eq!(err.message(), "GetSystemDirectoryW failed (GetLastError=6)");
    }
    let err = shell_executable(CommandShell::Cmd, 2, 1, &[0xD800, 0], 0).unwrap_err();
    assert_eq!(err.message(), "invalid input: system directory path is not valid Unicode");
}

fn action_of(kind: ActionKind) -> Action {
    Action { id: "a".to_string(), disabled: false, kind }
}

#[test]
fn execute_says_what_each_action_asks_for() {
    let app = action_of(ActionKind::Application {
        path: "C:\\a b.exe".to_string(),
        arguments: "-x".to_string(),
        working_directory: Some("C:\\w".to_string()),
    });
    match execute(&app).unwrap() {
        Launch::Process { command_line, working_directory } => {
            assert_eq!(to_string(&command_line), "\"C:\\a b.exe\" -x");
            assert_eq!(to_string(&working_directory.unwrap()), "C:\\w");
        }
        other => panic!("{other:?}"),
    }
    for kind in [
        ActionKind::Folder { path: "C:\\t".to_string() },
        ActionKind::File { path: "C:\\t".to_string() },
        ActionKind::Url { url: "C:\\t".to_string() },
    ] {
        match execute(&action_of(kind)).unwrap() {
            Launch::Shell { target } => assert_eq!(to_string(&target), "C:\\t"),
            other => panic!("{other:?}"),
        }
    }
    match execute(&action_of(ActionKind::Wait { milliseconds: 7 })).unwrap() {
        Launch::Sleep { milliseconds } => assert_eq!(milliseconds, 7),
        other => panic!("{other:?}"),
    }
}

#[test]
fn commands_run_verbatim_in_the_resolved_shell() {
    let action = action_of(ActionKind::Command {
        shell: CommandShell::PowerShell,
        command: "Get-Date -Format \"x\"".to_string(),
    });
    let (shell, command) = match execute(&action).unwrap() {
        Launch::Command { shell, command } => (shell, command),
        other => panic!("{other:?}"),
    };
    match run_command(shell, &command, "C:\\ps.exe").unwrap() {
        Launch::Process { command_line, working_directory } => {
            assert_eq!(
                to_string(&command_line),
                "\"C:\\ps.exe\" -NoProfile -Command Get-Date -Format \"x\""
            );
            assert!(working_directory.is_none());
        }
        other => panic!("{other:?}"),
    }
    match run_command(CommandShell::Cmd, "echo hi", "C:\\cmd.exe").unwrap() {
        Launch::Process { command_line, .. } => {
            assert_eq!(to_string(&command_line), "\"C:\\cmd.exe\" /C echo hi");
        }
        other => panic!("{other:?}"),
    }
}

#[test]
fn action_errors_have_exact_messages() {
    assert_eq!(
        to_wide("a\0b").unwrap_err().message(),
        "invalid input: string contains an interior NUL byte: \"a\\0b\""
    );
    assert_eq!(
        process_created(0, 2).unwrap_err().message(),
        "CreateProcessW failed (GetLastError=2)"
    );
    assert!(process_created(1, 2).is_ok());
    assert_eq!(
        shell_executed(29).unwrap_err().message(),
        "ShellExecuteW failed (29: DDE transaction failed)"
    );
    assert_eq!(
        shell_executed(7).unwrap_err().message(),
        "ShellExecuteW failed (7: unknown error)"
    );
    assert!(shell_executed(32).is_err());
    assert!(shell_executed(33).is_ok());
    assert_eq!(ActionError::UnsupportedPlatform.message(), "this action requires Windows");
    assert_eq!(
        build_command_line("a\"b", "").unwrap_err().message(),
        "invalid input: executable path must not contain a quote: \"a\\\"b\""
    );
}
