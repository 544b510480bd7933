//! Action implementations.
//!
//! Launching via CreateProcessW / ShellExecuteW only means "the request was
//! handed to Windows". Whether the started application later exits cleanly is
//! outside the scope of this launcher and is never waited for.
//!
//! What is handed to Windows, and what its answers mean, is decided here;
//! the calls themselves are the caller's.

use crate::config::{shell_exe, shell_prefix, Action, ActionKind, CommandShell, KindView};
use crate::number::{decimal, decimal_text};
use crate::paths::{is_joined, is_plain_relative, join_path, joins_plainly, lies_below};
use crate::text::{chars_of, debug_string, debug_text, ends_with, ends_with_char, has_char};
use crate::utf16::{decode_utf16, encode_wide, utf16, utf16_keeps_nul_out, utf16_text, wide};
use crate::validation::valid_kind;
use vstd::prelude::*;
use vstd::string::*;

verus! {

#[derive(Debug)]
pub enum ActionError {
    /// Input or environment value that cannot be handed to the Win32 API
    /// safely (e.g. interior NUL, implausible system path length).
    InvalidInput(String),
    /// CreateProcessW returned 0; `code` is GetLastError().
    CreateProcess { code: u32 },
    /// ShellExecuteW returned a value <= 32, which is an error code.
    ShellExecute { code: usize },
    /// A Win32 call needed to resolve a system path failed; `code` is
    /// GetLastError().
    SystemPath { api: &'static str, code: u32 },
    /// The host OS does not provide the required Win32 API.
    UnsupportedPlatform,
}

/// What an error code of ShellExecuteW means.
pub open spec fn shell_error(code: usize) -> Seq<char> {
    if code == 0 {
        "out of memory or resources"@
    } else if code == 2 {
        "file not found"@
    } else if code == 3 {
        "path not found"@
    } else if code == 5 {
        "access denied"@
    } else if code == 8 {
        "out of memory"@
    } else if code == 11 {
        "invalid executable"@
    } else if code == 26 {
        "sharing violation"@
    } else if code == 27 {
        "incomplete or invalid file association"@
    } else if 28 <= code <= 30 {
        "DDE transaction failed"@
    } else if code == 31 {
        "no application associated with the file type"@
    } else if code == 32 {
        "DLL not found"@
    } else {
        "unknown error"@
    }
}

/// The text of an action error.
pub open spec fn action_error_text(e: ActionError) -> Seq<char> {
    match e {
        ActionError::InvalidInput(m) => "invalid input: "@ + m@,
        ActionError::CreateProcess { code } => {
            "CreateProcessW failed (GetLastError="@ + decimal(code as nat) + ")"@
        },
        ActionError::ShellExecute { code } => {
            "ShellExecuteW failed ("@ + decimal(code as nat) + ": "@ + shell_error(code) + ")"@
        },
        ActionError::SystemPath { api, code } => {
            api@ + " failed (GetLastError="@ + decimal(code as nat) + ")"@
        },
        ActionError::UnsupportedPlatform => "this action requires Windows"@,
    }
}

fn shell_error_meaning(code: usize) -> (r: &'static str)
    ensures
        r@ == shell_error(code),
{
    match code {
        0 => "out of memory or resources",
        2 => "file not found",
        3 => "path not found",
        5 => "access denied",
        8 => "out of memory",
        11 => "invalid executable",
        26 => "sharing violation",
        27 => "incomplete or invalid file association",
        28 | 29 | 30 => "DDE transaction failed",
        31 => "no application associated with the file type",
        32 => "DLL not found",
        _ => "unknown error",
    }
}

impl ActionError {
    pub fn message(&self) -> (r: String)
        ensures
            r@ == action_error_text(*self),
    {
        match self {
            ActionError::InvalidInput(m) => "invalid input: ".to_owned().concat(m.as_str()),
            ActionError::CreateProcess { code } => {
                "CreateProcessW failed (GetLastError=".to_owned().concat(
                    decimal_text(*code as u64).as_str(),
                ).concat(")")
            },
            ActionError::ShellExecute { code } => {
                "ShellExecuteW failed (".to_owned().concat(
                    decimal_text(*code as u64).as_str(),
                ).concat(": ").concat(shell_error_meaning(*code)).concat(")")
            },
            ActionError::SystemPath { api, code } => {
                (*api).to_owned().concat(" failed (GetLastError=").concat(
                    decimal_text(*code as u64).as_str(),
                ).concat(")")
            },
            ActionError::UnsupportedPlatform => "this action requires Windows".to_owned(),
        }
    }
}

/// An error that says the given thing of an input.
pub open spec fn is_invalid_input(e: ActionError, message: Seq<char>) -> bool {
    e matches ActionError::InvalidInput(m) && m@ == message
}

// ---------- command lines ----------

/// The units of a text and a NUL, or the message when it holds a NUL itself.
pub open spec fn wide_text(s: Seq<char>) -> Result<Seq<u16>, Seq<char>> {
    if s.contains('\0') {
        Err("string contains an interior NUL byte: "@ + debug_text(s))
    } else {
        Ok(wide(s))
    }
}

/// Whether a result is the modelled units, or says the modelled message.
pub open spec fn is_wide(r: Result<Vec<u16>, ActionError>, expected: Result<Seq<u16>, Seq<char>>) -> bool {
    match r {
        Ok(u) => expected == Ok::<Seq<u16>, Seq<char>>(u@),
        Err(e) => expected matches Err(m) && is_invalid_input(e, m),
    }
}

pub fn to_wide(s: &str) -> (r: Result<Vec<u16>, ActionError>)
    ensures
        is_wide(r, wide_text(s@)),
{
    if has_char(s, '\0') {
        return Err(
            ActionError::InvalidInput(
                "string contains an interior NUL byte: ".to_owned().concat(
                    debug_string(s).as_str(),
                ),
            ),
        );
    }
    Ok(encode_wide(s))
}

/// A quoted program, and its arguments behind a space where there are any.
pub open spec fn command_text(exe: Seq<char>, arguments: Seq<char>) -> Seq<char> {
    if arguments.len() == 0 {
        "\""@ + exe + "\""@
    } else {
        "\""@ + exe + "\""@ + " "@ + arguments
    }
}

/// The command line of a program, or what is wrong with it.
pub open spec fn command_line(exe: Seq<char>, arguments: Seq<char>) -> Result<
    Seq<u16>,
    Seq<char>,
> {
    if exe.len() == 0 {
        Err("executable path must not be empty"@)
    } else if exe.contains('"') {
        Err("executable path must not contain a quote: "@ + debug_text(exe))
    } else if ends_with(exe, '\\') || ends_with(exe, '/') {
        Err("executable path must not end with a path separator: "@ + debug_text(exe))
    } else {
        wide_text(command_text(exe, arguments))
    }
}

/// Builds the NUL-terminated UTF-16 command line handed to CreateProcessW.
///
/// The executable path is always wrapped in double quotes so paths with
/// spaces cannot be re-parsed as "program arg". `arguments` is appended
/// verbatim after one space; quoting individual arguments is intentionally
/// not done here — the caller owns that contract. The returned buffer is
/// writable because CreateProcessW may modify lpCommandLine in place.
pub fn build_command_line(exe: &str, arguments: &str) -> (r: Result<Vec<u16>, ActionError>)
    ensures
        is_wide(r, command_line(exe@, arguments@)),
{
    if chars_of(exe).len() == 0 {
        return Err(ActionError::InvalidInput("executable path must not be empty".to_owned()));
    }
    if has_char(exe, '"') {
        return Err(
            ActionError::InvalidInput(
                "executable path must not contain a quote: ".to_owned().concat(
                    debug_string(exe).as_str(),
                ),
            ),
        );
    }
    // A trailing separator would escape the closing quote added below
    // (`"C:\dir\" arg` parses as one token), so it is rejected instead of
    // producing a silently wrong command line.
    if ends_with_char(exe, '\\') || ends_with_char(exe, '/') {
        return Err(
            ActionError::InvalidInput(
                "executable path must not end with a path separator: ".to_owned().concat(
                    debug_string(exe).as_str(),
                ),
            ),
        );
    }
    let quoted = "\"".to_owned().concat(exe).concat("\"");
    if chars_of(arguments).len() == 0 {
        to_wide(quoted.as_str())
    } else {
        to_wide(quoted.concat(" ").concat(arguments).as_str())
    }
}

// ---------- what an action asks of Windows ----------

/// What has to be done for an action. Wide texts end in NUL.
#[derive(Debug)]
pub enum Launch {
    /// CreateProcessW with this command line and working directory.
    Process { command_line: Vec<u16>, working_directory: Option<Vec<u16>> },
    /// ShellExecuteW on this target with the default verb.
    Shell { target: Vec<u16> },
    /// The shell's executable has to be found first; see `shell_executable`.
    Command { shell: CommandShell, command: String },
    /// Nothing but to wait.
    Sleep { milliseconds: u64 },
}

/// A launch as its values.
pub enum LaunchView {
    Process { command_line: Seq<u16>, working_directory: Option<Seq<u16>> },
    Shell { target: Seq<u16> },
    Command { shell: CommandShell, command: Seq<char> },
    Sleep { milliseconds: u64 },
}

impl View for Launch {
    type V = LaunchView;

    open spec fn view(&self) -> LaunchView {
        match self {
            Launch::Process { command_line, working_directory } => LaunchView::Process {
                command_line: command_line@,
                working_directory: match working_directory {
                    Some(dir) => Some(dir@),
                    None => None,
                },
            },
            Launch::Shell { target } => LaunchView::Shell { target: target@ },
            Launch::Command { shell, command } => LaunchView::Command {
                shell: *shell,
                command: command@,
            },
            Launch::Sleep { milliseconds } => LaunchView::Sleep { milliseconds: *milliseconds },
        }
    }
}

/// A process of the program in the directory, if one is given.
pub open spec fn process_of(
    exe: Seq<char>,
    arguments: Seq<char>,
    working_directory: Option<Seq<char>>,
) -> Result<LaunchView, Seq<char>> {
    match command_line(exe, arguments) {
        Err(m) => Err(m),
        Ok(command_line) => match working_directory {
            None => Ok(LaunchView::Process { command_line, working_directory: None }),
            Some(dir) => match wide_text(dir) {
                Err(m) => Err(m),
                Ok(dir) => Ok(LaunchView::Process { command_line, working_directory: Some(dir) }),
            },
        },
    }
}

/// The shell's default verb on a target.
pub open spec fn opening_of(target: Seq<char>) -> Result<LaunchView, Seq<char>> {
    match wide_text(target) {
        Err(m) => Err(m),
        Ok(target) => Ok(LaunchView::Shell { target }),
    }
}

/// What an action asks for, or what is wrong with its values.
pub open spec fn launch_of(kind: KindView) -> Result<LaunchView, Seq<char>> {
    match kind {
        KindView::Application { path, arguments, working_directory } => {
            process_of(path, arguments, working_directory)
        },
        KindView::Folder { path } | KindView::File { path } => opening_of(path),
        KindView::Url { url } => opening_of(url),
        KindView::Command { shell, command } => Ok(LaunchView::Command { shell, command }),
        KindView::Wait { milliseconds } => Ok(LaunchView::Sleep { milliseconds }),
    }
}

/// Whether a result is the modelled launch, or says the modelled message.
pub open spec fn is_launch(r: Result<Launch, ActionError>, expected: Result<LaunchView, Seq<char>>) -> bool {
    match r {
        Ok(launch) => expected == Ok::<LaunchView, Seq<char>>(launch@),
        Err(e) => expected matches Err(m) && is_invalid_input(e, m),
    }
}

fn open_target(target: &str) -> (r: Result<Launch, ActionError>)
    ensures
        is_launch(r, opening_of(target@)),
{
    match to_wide(target) {
        Ok(target) => Ok(Launch::Shell { target }),
        Err(e) => Err(e),
    }
}

/// Starts executing one action: says what has to be done for it. See module
/// docs for the definition of "success".
pub fn execute(action: &Action) -> (r: Result<Launch, ActionError>)
    ensures
        is_launch(r, launch_of(action@.kind)),
{
    match &action.kind {
        ActionKind::Application { path, arguments, working_directory } => {
            let command_line = match build_command_line(path.as_str(), arguments.as_str()) {
                Ok(command_line) => command_line,
                Err(e) => return Err(e),
            };
            let cwd = match working_directory {
                Some(dir) => match to_wide(dir.as_str()) {
                    Ok(dir) => Some(dir),
                    Err(e) => return Err(e),
                },
                None => None,
            };
            Ok(Launch::Process { command_line, working_directory: cwd })
        },
        // A default verb, usually "open", so file types without an explicit
        // "open" verb still work.
        ActionKind::Folder { path } => open_target(path.as_str()),
        ActionKind::File { path } => open_target(path.as_str()),
        ActionKind::Url { url } => open_target(url.as_str()),
        ActionKind::Command { shell, command } => {
            Ok(Launch::Command { shell: *shell, command: command.clone() })
        },
        ActionKind::Wait { milliseconds } => Ok(Launch::Sleep { milliseconds: *milliseconds }),
    }
}

/// The process that runs a command, once the path of its shell is known.
///
/// The command string is appended verbatim. It is deliberately not
/// re-quoted: how quoting reaches the shell is the user's responsibility,
/// and silent re-interpretation is a security risk.
pub fn run_command(shell: CommandShell, command: &str, exe: &str) -> (r: Result<
    Launch,
    ActionError,
>)
    ensures
        is_launch(r, process_of(exe@, shell_prefix(shell) + command@, None)),
{
    let arguments = shell.command_line_prefix().to_owned().concat(command);
    match build_command_line(exe, arguments.as_str()) {
        Ok(command_line) => Ok(Launch::Process { command_line, working_directory: None }),
        Err(e) => Err(e),
    }
}

// ---------- where the shells are ----------

/// The system directory is well inside MAX_PATH; a larger length means the
/// API misbehaved, so nothing that large is allocated.
pub const MAX_SYSTEM_DIR_CHARS: u32 = 1024;

/// How many units to ask GetSystemDirectoryW for: `needed` is what it
/// answered when it was first asked without a buffer, `code` GetLastError()
/// after that.
pub fn system_directory_length(needed: u32, code: u32) -> (r: Result<u32, ActionError>)
    ensures
        match r {
            Ok(n) => n == needed && 0 < needed <= MAX_SYSTEM_DIR_CHARS,
            Err(e) => if needed == 0 {
                e matches ActionError::SystemPath { api, code: c } && api@
                    == "GetSystemDirectoryW"@ && c == code
            } else {
                &&& needed > MAX_SYSTEM_DIR_CHARS
                &&& is_invalid_input(
                    e,
                    "GetSystemDirectoryW reported an implausible length of "@ + decimal(
                        needed as nat,
                    ) + " characters"@,
                )
            },
        },
{
    if needed == 0 {
        return Err(ActionError::SystemPath { api: "GetSystemDirectoryW", code });
    }
    if needed > MAX_SYSTEM_DIR_CHARS {
        return Err(
            ActionError::InvalidInput(
                "GetSystemDirectoryW reported an implausible length of ".to_owned().concat(
                    decimal_text(needed as u64).as_str(),
                ).concat(" characters"),
            ),
        );
    }
    Ok(needed)
}

/// Resolves the absolute path of a Command action's shell under the Windows
/// system directory, so neither PATH nor the current directory can redirect
/// `cmd.exe` / `powershell.exe` to a planted executable.
///
/// `written` is what GetSystemDirectoryW answered when it was handed a
/// buffer of `needed` units, `buffer` what it left there, and `code`
/// GetLastError() after that.
pub fn shell_executable(
    shell: CommandShell,
    needed: u32,
    written: u32,
    buffer: &[u16],
    code: u32,
) -> (r: Result<String, ActionError>)
    requires
        buffer@.len() == needed,
    ensures
        match r {
            Ok(path) => {
                &&& 0 < written < needed
                &&& utf16_text(buffer@.take(written as int)) matches Some(dir) && is_joined(
                    dir,
                    shell_exe(shell),
                    path@,
                )
            },
            Err(e) => if 0 < written < needed {
                &&& utf16_text(buffer@.take(written as int)) is None
                &&& is_invalid_input(e, "system directory path is not valid Unicode"@)
            } else {
                e matches ActionError::SystemPath { api, code: c } && api@
                    == "GetSystemDirectoryW"@ && c == code
            },
        },
{
    if written == 0 || written >= needed {
        return Err(ActionError::SystemPath { api: "GetSystemDirectoryW", code });
    }
    let mut units: Vec<u16> = Vec::new();
    let mut i: usize = 0;
    while i < written as usize
        invariant
            i <= written < needed,
            buffer@.len() == needed,
            units@ == buffer@.take(i as int),
        decreases written - i,
    {
        units.push(buffer[i]);
        i += 1;
    }
    let dir = match decode_utf16(units.as_slice()) {
        Some(dir) => dir,
        None => {
            return Err(
                ActionError::InvalidInput("system directory path is not valid Unicode".to_owned()),
            );
        },
    };
    Ok(join_path(dir.as_str(), shell.system_relative_exe()))
}

// ---------- what Windows answered ----------

/// The outcome of CreateProcessW: `ok` is its result and `code`
/// GetLastError() after it.
pub fn process_created(ok: i32, code: u32) -> (r: Result<(), ActionError>)
    ensures
        r == if ok == 0 {
            Err::<(), ActionError>(ActionError::CreateProcess { code })
        } else {
            Ok(())
        },
{
    if ok == 0 {
        return Err(ActionError::CreateProcess { code });
    }
    Ok(())
}

/// The outcome of ShellExecuteW. It returns an HINSTANCE; values <= 32 are
/// error codes. Compared as usize so a high pointer bit cannot look like a
/// negative (and therefore failing) value on 64-bit.
pub fn shell_executed(code: usize) -> (r: Result<(), ActionError>)
    ensures
        r == if code <= 32 {
            Err::<(), ActionError>(ActionError::ShellExecute { code })
        } else {
            Ok(())
        },
{
    if code <= 32 {
        Err(ActionError::ShellExecute { code })
    } else {
        Ok(())
    }
}

// ---------- laws ----------

/// A text without NUL, made wide, ends at its only NUL.
pub proof fn wide_ends_at_its_only_nul(s: Seq<char>)
    requires
        !s.contains('\0'),
    ensures
        wide(s).last() == 0,
        forall|i: int| 0 <= i < wide(s).len() - 1 ==> #[trigger] wide(s)[i] != 0,
{
    utf16_keeps_nul_out(s);
    assert forall|i: int| 0 <= i < wide(s).len() - 1 implies #[trigger] wide(s)[i] != 0 by {
        assert(wide(s)[i] == utf16(s)[i]);
        assert(utf16(s).contains(utf16(s)[i]));
    }
}

proof fn command_text_nul(exe: Seq<char>, arguments: Seq<char>)
    ensures
        command_text(exe, arguments).contains('\0') <==> exe.contains('\0')
            || arguments.contains('\0'),
{
    reveal_strlit("\"");
    reveal_strlit(" ");
    let t = command_text(exe, arguments);
    if exe.contains('\0') {
        let i = choose|i: int| 0 <= i < exe.len() && exe[i] == '\0';
        assert(t[i + 1] == '\0');
    }
    if arguments.contains('\0') {
        let i = choose|i: int| 0 <= i < arguments.len() && arguments[i] == '\0';
        assert(t[exe.len() + 3 + i] == '\0');
    }
    if t.contains('\0') {
        let i = choose|i: int| 0 <= i < t.len() && t[i] == '\0';
        if 1 <= i <= exe.len() {
            assert(exe[i - 1] == '\0');
        } else {
            assert(i >= exe.len() + 3);
            assert(arguments[i - exe.len() - 3] == '\0');
        }
    }
}

/// Whatever validation accepts can be launched: no action of a valid config
/// fails for its own values.
pub proof fn valid_actions_launch(kind: KindView)
    requires
        valid_kind(kind),
    ensures
        launch_of(kind) is Ok,
{
    if let KindView::Application { path, arguments, working_directory } = kind {
        command_text_nul(path, arguments);
    }
}

/// Wherever the system directory is, but for a verbatim one that is
/// normalized, the command of a valid config can be run by the shell found
/// below it.
pub proof fn valid_commands_run(
    shell: CommandShell,
    command: Seq<char>,
    dir: Seq<char>,
    exe: Seq<char>,
)
    requires
        valid_kind(KindView::Command { shell, command }),
        !dir.contains('\0'),
        !dir.contains('"'),
        joins_plainly(dir),
        is_joined(dir, shell_exe(shell), exe),
    ensures
        process_of(exe, shell_prefix(shell) + command, None) is Ok,
{
    reveal_strlit("cmd.exe");
    reveal_strlit("WindowsPowerShell\\v1.0\\powershell.exe");
    reveal_strlit("/C ");
    reveal_strlit("-NoProfile -Command ");
    reveal_strlit("\\");
    let rel = shell_exe(shell);
    let arguments = shell_prefix(shell) + command;
    assert(exe.last() == 'e') by {
        assert(rel.last() == 'e');
        assert(exe[exe.len() - 1] == rel[rel.len() - 1]);
    }
    assert forall|i: int| 0 <= i < exe.len() implies exe[i] != '\0' && exe[i] != '"' by {
        if i < dir.len() {
            assert(exe[i] == dir[i]);
            assert(dir.contains(dir[i]));
        } else if exe.len() == dir.len() + rel.len() {
            assert(exe[i] == rel[i - dir.len()]);
        } else if i > dir.len() {
            assert(exe[i] == rel[i - dir.len() - 1]);
        }
    }
    assert forall|i: int| 0 <= i < arguments.len() implies arguments[i] != '\0' by {
        let n = shell_prefix(shell).len();
        if i >= n {
            assert(arguments[i] == command[i - n]);
            assert(command.contains(command[i - n]));
        } else {
            assert(arguments[i] == shell_prefix(shell)[i]);
        }
    }
    command_text_nul(exe, arguments);
}

/// The shell of a command is never a bare file name: what is run ends in the
/// shell's own path and starts with the system directory, unless that is a
/// verbatim one that is normalized.
pub proof fn shell_lies_below(dir: Seq<char>, shell: CommandShell, exe: Seq<char>)
    requires
        is_joined(dir, shell_exe(shell), exe),
    ensures
        shell_exe(shell).is_suffix_of(exe),
        joins_plainly(dir) ==> exe.len() > dir.len() && exe.take(dir.len() as int) == dir,
{
    reveal_strlit("cmd.exe");
    reveal_strlit("WindowsPowerShell\\v1.0\\powershell.exe");
    assert(is_plain_relative(shell_exe(shell)));
    lies_below(dir, shell_exe(shell));
}

/// The program of an accepted command line is what stands between its first
/// two quotes, whatever the path and the arguments hold, and no backslash
/// escapes the second.
pub proof fn program_is_between_the_quotes(exe: Seq<char>, arguments: Seq<char>)
    requires
        command_line(exe, arguments) is Ok,
    ensures
        ({
            let t = command_text(exe, arguments);
            let n = exe.len() as int;
            &&& command_line(exe, arguments) == Ok::<Seq<u16>, Seq<char>>(wide(t))
            &&& t[0] == '"' && t[n + 1] == '"'
            &&& t.subrange(1, n + 1) == exe
            &&& forall|i: int| 1 <= i <= n ==> #[trigger] t[i] != '"'
            &&& t[n] != '\\'
        }),
{
    reveal_strlit("\"");
    reveal_strlit(" ");
    let t = command_text(exe, arguments);
    let n = exe.len() as int;
    assert(t.subrange(1, n + 1) =~= exe);
    assert forall|i: int| 1 <= i <= n implies #[trigger] t[i] != '"' by {
        assert(t[i] == exe[i - 1]);
        assert(exe.contains(exe[i - 1]));
    }
    assert(t[n] == exe[n - 1]);
}

} // verus!
