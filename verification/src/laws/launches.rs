//! What an action asks of Windows.

use crate::actions::{
    build_command_line, command_text, execute, process_created, run_command, shell_executable,
    shell_executed, system_directory_length, to_wide, ActionError, Launch,
};
use crate::config::{shell_prefix, Action, ActionKind, CommandShell};
use crate::text::debug_text;
use crate::utf16::{
    char_is_scalar, decode_until_nul, decode_utf16, decode_utf16_lossy, encode_utf16, encode_wide,
    is_high, is_low, until_nul, utf16, utf16_char, utf16_concat, utf16_keeps_nul_out,
    utf16_of_utf16_text, utf16_text, utf16_text_lossy, utf16_text_of_utf16, wide,
};
use vstd::prelude::*;
use vstd::string::*;

verus! {

/// A character is handed to Windows as one unit of its own value, or as the
/// two halves of a surrogate pair, and a text as the units of its characters
/// in order.
pub proof fn texts_are_handed_over_unit_by_unit(s: &str, r: Vec<u16>, i: int, c: char)
    requires
        call_ensures(encode_utf16, (s,), r),
        0 <= i < s@.len(),
    ensures
        r@ == utf16(s@.take(i)) + utf16(seq![s@[i]]) + utf16(s@.skip(i + 1)),
        utf16(Seq::empty()).len() == 0,
        c as int <= 0xFFFF ==> utf16(seq![c]) == seq![c as u16],
        c as int > 0xFFFF ==> {
            let u = utf16(seq![c]);
            &&& u.len() == 2
            &&& 0xD800 <= u[0] < 0xDC00
            &&& 0xDC00 <= u[1] < 0xE000
            &&& 0x10000 + (u[0] - 0xD800) * 0x400 + (u[1] - 0xDC00) == c as int
        },
{
    char_is_scalar(c);
    assert(seq![c].drop_first() =~= Seq::<char>::empty());
    assert(utf16(Seq::<char>::empty()) =~= Seq::<u16>::empty());
    assert(utf16(seq![c]) =~= utf16_char(c));
    utf16_concat(s@.take(i), seq![s@[i]]);
    utf16_concat(s@.take(i) + seq![s@[i]], s@.skip(i + 1));
    assert(s@.take(i) + seq![s@[i]] + s@.skip(i + 1) =~= s@);
}

/// A wide text is the units of the text and one NUL behind them.
pub proof fn wide_texts_end_in_nul(s: &str, r: Vec<u16>, checked: Result<Vec<u16>, ActionError>)
    requires
        call_ensures(encode_wide, (s,), r),
        call_ensures(to_wide, (s,), checked),
    ensures
        r@ == utf16(s@) + seq![0u16],
        wide(s@) == r@,
        checked is Ok <==> !s@.contains('\0'),
        checked matches Ok(u) ==> u@ == r@,
        checked matches Err(e) ==> e is InvalidInput,
{
    assert(wide(s@) =~= utf16(s@) + seq![0u16]);
}

/// Units are read as the text whose units they are, and as none where there
/// is no such text.
pub proof fn units_are_read_as_their_text(units: &[u16], r: Option<String>, s: Seq<char>)
    requires
        call_ensures(decode_utf16, (units,), r),
    ensures
        utf16(s) == units@ ==> r is Some && r->0@ == s,
        r matches Some(t) ==> utf16(t@) == units@,
{
    utf16_text_of_utf16(s);
    utf16_of_utf16_text(units@);
}

/// A buffer that Windows filled is read up to the first NUL, as the text
/// whose units stand there.
pub proof fn buffers_are_read_up_to_nul(buffer: &[u16], r: String, s: Seq<char>, rest: Seq<u16>)
    requires
        call_ensures(decode_until_nul, (buffer,), r),
        !s.contains('\0'),
        buffer@ == utf16(s) || buffer@ == utf16(s) + seq![0u16] + rest,
    ensures
        r@ == s,
{
    utf16_keeps_nul_out(s);
    utf16_text_of_utf16(s);
    read_whole(utf16(s), s);
    if buffer@ == utf16(s) {
        assert(utf16(s) + Seq::<u16>::empty() =~= utf16(s));
        cut_at_nul(utf16(s), Seq::empty());
    } else {
        assert(utf16(s) + (seq![0u16] + rest) =~= buffer@);
        cut_at_nul(utf16(s), seq![0u16] + rest);
    }
}

proof fn cut_at_nul(u: Seq<u16>, rest: Seq<u16>)
    requires
        !u.contains(0u16),
        rest.len() > 0 ==> rest[0] == 0,
    ensures
        until_nul(u + rest) == u,
    decreases u.len(),
{
    if u.len() == 0 {
        assert(u + rest =~= rest);
        assert(until_nul(rest) =~= u);
    } else {
        assert(u.contains(u[0]));
        assert forall|i: int| 0 <= i < u.skip(1).len() implies u.skip(1)[i] != 0 by {
            assert(u.contains(u[i + 1]));
        }
        cut_at_nul(u.skip(1), rest);
        assert((u + rest).skip(1) =~= u.skip(1) + rest);
        assert(seq![u[0]] + u.skip(1) =~= u);
    }
}

proof fn read_whole(u: Seq<u16>, s: Seq<char>)
    requires
        utf16_text(u) == Some(s),
    ensures
        utf16_text_lossy(u) == s,
    decreases u.len(),
{
    if u.len() > 0 {
        if !is_high(u[0]) && !is_low(u[0]) {
            read_whole(u.skip(1), utf16_text(u.skip(1))->0);
        } else {
            read_whole(u.skip(2), utf16_text(u.skip(2))->0);
        }
    }
}

/// A half of a surrogate pair that stands alone is read as U+FFFD.
pub proof fn lone_halves_are_marked(units: &[u16], r: String, u: u16)
    requires
        call_ensures(decode_utf16_lossy, (units,), r),
        units@ == seq![u],
    ensures
        0xD800 <= u < 0xE000 ==> r@ == seq!['\u{fffd}'],
        !(0xD800 <= u < 0xE000) ==> r@ == seq![u as char],
{
    assert(units@.skip(1) =~= Seq::<u16>::empty());
    assert(utf16_text_lossy(units@.skip(1)) =~= Seq::<char>::empty());
    assert(r@ =~= seq![r@[0]]);
}

/// The text of a command line: the program in quotes, and behind a space the
/// arguments as they are, where there are any.
proof fn command_text_is(exe: Seq<char>, arguments: Seq<char>)
    ensures
        arguments.len() == 0 ==> command_text(exe, arguments) == seq!['"'] + exe + seq!['"'],
        arguments.len() > 0 ==> command_text(exe, arguments) == seq!['"'] + exe + seq![
            '"',
            ' ',
        ] + arguments,
{
    reveal_strlit("\"");
    reveal_strlit(" ");
    if arguments.len() == 0 {
        assert(command_text(exe, arguments) =~= seq!['"'] + exe + seq!['"']);
    } else {
        assert(command_text(exe, arguments) =~= seq!['"'] + exe + seq!['"', ' '] + arguments);
    }
}

proof fn nul_in(exe: Seq<char>, arguments: Seq<char>, line: Seq<char>)
    requires
        line == command_text(exe, arguments),
    ensures
        line.contains('\0') <==> exe.contains('\0') || arguments.contains('\0'),
{
    command_text_is(exe, arguments);
    if exe.contains('\0') {
        let i = choose|i: int| 0 <= i < exe.len() && exe[i] == '\0';
        assert(line[i + 1] == '\0');
    }
    if arguments.contains('\0') {
        let i = choose|i: int| 0 <= i < arguments.len() && arguments[i] == '\0';
        assert(line[exe.len() + 3 + i] == '\0');
    }
    if line.contains('\0') {
        let i = choose|i: int| 0 <= i < line.len() && line[i] == '\0';
        if 1 <= i <= exe.len() {
            assert(exe[i - 1] == '\0');
        } else {
            assert(arguments[i - exe.len() - 3] == '\0');
        }
    }
}

/// A program is started by its own path in quotes, with its own arguments
/// behind a space where it has any, and in its own working directory where it
/// has one, whatever the other two are. It is refused only for a path that is
/// empty, holds a quote or ends in a separator, or for a NUL.
pub proof fn a_program_is_started_as_it_is_written(
    action: &Action,
    path: String,
    arguments: String,
    working_directory: Option<String>,
    r: Result<Launch, ActionError>,
)
    requires
        call_ensures(execute, (action,), r),
        action.kind == (ActionKind::Application { path, arguments, working_directory }),
    ensures
        match r {
            Ok(Launch::Process { command_line, working_directory: cwd }) => {
                &&& arguments@.len() == 0 ==> command_line@ == wide(seq!['"'] + path@ + seq!['"'])
                &&& arguments@.len() > 0 ==> command_line@ == wide(
                    seq!['"'] + path@ + seq!['"', ' '] + arguments@,
                )
                &&& working_directory is None <==> cwd is None
                &&& working_directory matches Some(dir) ==> cwd->0@ == wide(dir@)
                &&& path@.len() > 0
                &&& !path@.contains('"')
                &&& path@[path@.len() - 1] != '\\' && path@[path@.len() - 1] != '/'
                &&& !path@.contains('\0') && !arguments@.contains('\0')
                &&& working_directory matches Some(dir) ==> !dir@.contains('\0')
            },
            Ok(_) => false,
            Err(e) => {
                &&& e is InvalidInput
                &&& {
                    ||| path@.len() == 0
                    ||| path@.contains('"')
                    ||| path@[path@.len() - 1] == '\\' || path@[path@.len() - 1] == '/'
                    ||| path@.contains('\0') || arguments@.contains('\0')
                    ||| working_directory matches Some(dir) && dir@.contains('\0')
                }
            },
        },
{
    command_text_is(path@, arguments@);
    nul_in(path@, arguments@, command_text(path@, arguments@));
}

/// Whether a program runs in a directory is not for its path or arguments to
/// say: of two programs with the same directory that can both be started, both
/// are started in it.
pub proof fn directories_do_not_depend_on_arguments(
    a: &Action,
    b: &Action,
    dir: Option<String>,
    x: Result<Launch, ActionError>,
    y: Result<Launch, ActionError>,
)
    requires
        call_ensures(execute, (a,), x),
        call_ensures(execute, (b,), y),
        a.kind matches ActionKind::Application { working_directory, .. } && working_directory
            == dir,
        b.kind matches ActionKind::Application { working_directory, .. } && working_directory
            == dir,
        x is Ok,
        y is Ok,
    ensures
        ({
            let p = x->Ok_0->Process_working_directory;
            let q = y->Ok_0->Process_working_directory;
            &&& x->Ok_0 is Process && y->Ok_0 is Process
            &&& p is Some == dir is Some
            &&& q is Some == dir is Some
            &&& p is Some ==> p->0@ == q->0@
        }),
{
}

/// A folder, a file and a URL are opened by their own text. Only a NUL in it
/// is refused.
pub proof fn a_target_is_opened_as_it_is_written(
    action: &Action,
    target: String,
    r: Result<Launch, ActionError>,
)
    requires
        call_ensures(execute, (action,), r),
        action.kind == (ActionKind::Folder { path: target }) || action.kind == (ActionKind::File {
            path: target,
        }) || action.kind == (ActionKind::Url { url: target }),
    ensures
        match r {
            Ok(Launch::Shell { target: units }) => units@ == wide(target@) && !target@.contains(
                '\0',
            ),
            Ok(_) => false,
            Err(e) => e is InvalidInput && target@.contains('\0'),
        },
{
}

/// A command goes to the shell that it names, as it is written, and a wait
/// lasts as long as it says.
pub proof fn commands_and_waits_are_taken_as_written(
    action: &Action,
    r: Result<Launch, ActionError>,
)
    requires
        call_ensures(execute, (action,), r),
        action.kind is Command || action.kind is Wait,
    ensures
        match (action.kind, r) {
            (
                ActionKind::Command { shell, command },
                Ok(Launch::Command { shell: s, command: c }),
            ) => s == shell && c@ == command@,
            (ActionKind::Wait { milliseconds }, Ok(Launch::Sleep { milliseconds: m })) => {
                m == milliseconds
            },
            _ => false,
        },
{
}

/// Neither its id nor its mark has a say in what an action asks for.
pub proof fn only_the_kind_decides(
    a: &Action,
    b: &Action,
    x: Result<Launch, ActionError>,
    y: Result<Launch, ActionError>,
)
    requires
        call_ensures(execute, (a,), x),
        call_ensures(execute, (b,), y),
        a.kind == b.kind,
    ensures
        x is Ok <==> y is Ok,
        x is Ok ==> x->Ok_0@ == y->Ok_0@,
{
}

/// A shell is started by its own path in quotes. Behind that stand the
/// switches that make it run one command, and then the command as it is.
pub proof fn shells_run_the_command_as_it_is(
    shell: CommandShell,
    command: &str,
    exe: &str,
    r: Result<Launch, ActionError>,
    file: &'static str,
)
    requires
        call_ensures(run_command, (shell, command, exe), r),
        call_ensures(CommandShell::system_relative_exe, (shell,), file),
    ensures
        ({
            let switches = match shell {
                CommandShell::Cmd => "/C "@,
                CommandShell::PowerShell => "-NoProfile -Command "@,
            };
            match r {
                Ok(Launch::Process { command_line, working_directory }) => {
                    &&& working_directory is None
                    &&& command_line@ == wide(
                        seq!['"'] + exe@ + seq!['"', ' '] + (switches + command@),
                    )
                },
                Ok(_) => false,
                Err(_) => {
                    ||| exe@.len() == 0
                    ||| exe@.contains('"')
                    ||| exe@[exe@.len() - 1] == '\\' || exe@[exe@.len() - 1] == '/'
                    ||| exe@.contains('\0') || command@.contains('\0')
                },
            }
        }),
        shell is Cmd ==> file@ == "cmd.exe"@,
        shell is PowerShell ==> file@ == "WindowsPowerShell\\v1.0\\powershell.exe"@,
{
    reveal_strlit("/C ");
    reveal_strlit("-NoProfile -Command ");
    let arguments = shell_prefix(shell) + command@;
    command_text_is(exe@, arguments);
    nul_in(exe@, arguments, command_text(exe@, arguments));
    if arguments.contains('\0') {
        let i = choose|i: int| 0 <= i < arguments.len() && arguments[i] == '\0';
        let n = shell_prefix(shell).len();
        if i >= n {
            assert(command@[i - n] == '\0');
        } else {
            assert(arguments[i] == shell_prefix(shell)[i]);
        }
    }
}

/// What Windows answers decides: a process was created unless the answer is
/// zero, and a target was opened when the answer is above 32. The code that
/// comes with a failure is kept.
pub proof fn answers_of_windows_decide(
    ok: i32,
    code: u32,
    shell: usize,
    created: Result<(), ActionError>,
    opened: Result<(), ActionError>,
)
    requires
        call_ensures(process_created, (ok, code), created),
        call_ensures(shell_executed, (shell,), opened),
    ensures
        created is Ok <==> ok != 0,
        created matches Err(e) ==> e == (ActionError::CreateProcess { code }),
        opened is Ok <==> shell > 32,
        opened matches Err(e) ==> e == (ActionError::ShellExecute { code: shell }),
{
}

/// A length of the system directory is taken up to 1024.
pub proof fn system_directories_are_short(
    needed: u32,
    code: u32,
    r: Result<u32, ActionError>,
)
    requires
        call_ensures(system_directory_length, (needed, code), r),
    ensures
        r is Ok <==> 0 < needed <= 1024,
        r matches Ok(n) ==> n == needed,
        needed == 0 ==> r->Err_0 is SystemPath && r->Err_0->SystemPath_code == code,
        needed > 1024 ==> r->Err_0 is InvalidInput,
{
}

/// A command line is the program in quotes and the arguments behind a space,
/// where there are any. It is refused for a program that is empty, holds a
/// quote or ends in a separator, and for a NUL.
pub proof fn command_lines_quote_the_program(
    exe: &str,
    arguments: &str,
    r: Result<Vec<u16>, ActionError>,
)
    requires
        call_ensures(build_command_line, (exe, arguments), r),
    ensures
        r is Ok <==> {
            &&& exe@.len() > 0 && exe@[exe@.len() - 1] != '\\' && exe@[exe@.len() - 1] != '/'
            &&& !exe@.contains('"') && !exe@.contains('\0') && !arguments@.contains('\0')
        },
        r is Ok && arguments@.len() == 0 ==> r->Ok_0@ == wide(seq!['"'] + exe@ + seq!['"']),
        r is Ok && arguments@.len() > 0 ==> r->Ok_0@ == wide(
            seq!['"'] + exe@ + seq!['"', ' '] + arguments@,
        ),
        exe@.len() == 0 ==> {
            r->Err_0 matches ActionError::InvalidInput(m) && m@
                == "executable path must not be empty"@
        },
        exe@.contains('"') ==> {
            r->Err_0 matches ActionError::InvalidInput(m) && m@
                == "executable path must not contain a quote: "@ + debug_text(exe@)
        },
        exe@.len() > 0 && !exe@.contains('"') && (exe@[exe@.len() - 1] == '\\'
            || exe@[exe@.len() - 1] == '/') ==> {
            r->Err_0 matches ActionError::InvalidInput(m) && m@
                == "executable path must not end with a path separator: "@ + debug_text(exe@)
        },
{
    command_text_is(exe@, arguments@);
    nul_in(exe@, arguments@, command_text(exe@, arguments@));
    if exe@.contains('"') {
        assert(exe@.len() > 0);
    }
}

/// A shell is found below the system directory that the buffer holds, and
/// nowhere else; a buffer that does not hold it whole is refused.
pub proof fn shells_lie_below_the_system_directory(
    shell: CommandShell,
    needed: u32,
    written: u32,
    buffer: &[u16],
    code: u32,
    r: Result<String, ActionError>,
    dir: Seq<char>,
    file: &'static str,
)
    requires
        buffer@.len() == needed,
        call_ensures(shell_executable, (shell, needed, written, buffer, code), r),
        call_ensures(CommandShell::system_relative_exe, (shell,), file),
    ensures
        written == 0 || written >= needed ==> {
            r is Err && r->Err_0 is SystemPath && r->Err_0->SystemPath_code == code
        },
        0 < written < needed && buffer@.take(written as int) == utf16(dir) ==> r is Ok,
        0 < written < needed && buffer@.take(written as int) == utf16(dir)
            && !crate::laws::files::is_taken_as_it_stands(dir) ==> r->Ok_0@
            == if crate::laws::files::needs_no_separator(dir) {
            dir + file@
        } else {
            dir + seq!['\\'] + file@
        },
{
    utf16_text_of_utf16(dir);
    reveal_strlit("\\");
    assert("\\"@ =~= seq!['\\']);
}

/// The switches of a shell are the ones that its command lines have.
pub proof fn shells_have_their_switches(shell: CommandShell, r: &'static str)
    requires
        call_ensures(CommandShell::command_line_prefix, (shell,), r),
    ensures
        shell is Cmd ==> r@ == "/C "@,
        shell is PowerShell ==> r@ == "-NoProfile -Command "@,
{
}

} // verus!
