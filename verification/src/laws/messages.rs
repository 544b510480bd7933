//! What is said of errors and outcomes.

use crate::actions::ActionError;
use crate::autostart::{autostart_error_text, AutostartError};
use crate::config::{Config, Profile};
use crate::gui::{
    autostart_changed, forwarded_note, made_block, outcome_block, run_directly, shortcut_note,
    test_note, GuiError, Note,
};
use crate::ipc::{ipc_error_text, ForwardOutcome, IpcError};
use crate::number::{decimal, hex_fixed, hex_lower};
use crate::profile::{
    failures, find_profile, is_first_named, outcome_text, ran, ActionOutcome, ActionStatus,
    Launcher, ProfileResult,
};
use crate::resident::{Dispatch, ResidentError};
use crate::shortcut::ShortcutError;
use crate::storage::{config_error_text, ConfigError};
use vstd::prelude::*;
use vstd::string::*;

verus! {

// ---------- errors ----------

/// What is said of an action that could not be started names the call and
/// its code, and what the code means where the shell gave it.
pub proof fn action_errors_name_the_call(e: &ActionError, r: String)
    requires
        call_ensures(ActionError::message, (e,), r),
    ensures
        match *e {
            ActionError::InvalidInput(m) => r@ == "invalid input: "@ + m@,
            ActionError::CreateProcess { code } => {
                r@ == "CreateProcessW failed (GetLastError="@ + decimal(code as nat) + ")"@
            },
            ActionError::ShellExecute { code } => {
                let told = |meaning: Seq<char>|
                    "ShellExecuteW failed ("@ + decimal(code as nat) + ": "@ + meaning + ")"@;
                &&& code == 0 ==> r@ == told("out of memory or resources"@)
                &&& code == 2 ==> r@ == told("file not found"@)
                &&& code == 3 ==> r@ == told("path not found"@)
                &&& code == 5 ==> r@ == told("access denied"@)
                &&& code == 8 ==> r@ == told("out of memory"@)
                &&& code == 11 ==> r@ == told("invalid executable"@)
                &&& code == 26 ==> r@ == told("sharing violation"@)
                &&& code == 27 ==> r@ == told("incomplete or invalid file association"@)
                &&& 28 <= code <= 30 ==> r@ == told("DDE transaction failed"@)
                &&& code == 31 ==> r@ == told("no application associated with the file type"@)
                &&& code == 32 ==> r@ == told("DLL not found"@)
                &&& code != 0 && code != 2 && code != 3 && code != 5 && code != 8 && code != 11
                    && !(26 <= code <= 32) ==> r@ == told("unknown error"@)
            },
            ActionError::SystemPath { api, code } => {
                r@ == api@ + " failed (GetLastError="@ + decimal(code as nat) + ")"@
            },
            ActionError::UnsupportedPlatform => r@ == "this action requires Windows"@,
        },
{
}

/// What is said of a shortcut that could not be made names the call and its
/// answer, in eight hexadecimal digits.
pub proof fn shortcut_errors_name_the_call(e: &ShortcutError, r: String)
    requires
        call_ensures(ShortcutError::message, (e,), r),
    ensures
        match *e {
            ShortcutError::InvalidInput(m) => r@ == "invalid input: "@ + m@,
            ShortcutError::Com { api, hr } => {
                let told = |bits: nat|
                    api@ + " failed (HRESULT=0x"@ + hex_fixed(bits, 8) + ")"@;
                &&& hr >= 0 ==> r@ == told(hr as nat)
                &&& hr < 0 ==> r@ == told((hr + 0x1_0000_0000) as nat)
            },
            ShortcutError::Io(m) => r@ == "cannot resolve the executable path: "@ + m@,
            ShortcutError::UnsupportedPlatform => r@ == "shortcut creation requires Windows"@,
        },
{
}

/// What is said of the logon entry names the call and its code.
pub proof fn autostart_errors_name_the_call(e: &AutostartError, r: String)
    requires
        call_ensures(AutostartError::message, (e,), r),
    ensures
        match *e {
            AutostartError::NoExePath(m) => r@ == "cannot resolve the exe path: "@ + m@,
            AutostartError::NonUnicodeExePath => r@ == "the exe path is not valid Unicode"@,
            AutostartError::Registry { api, code } => {
                r@ == api@ + " failed (WIN32_ERROR="@ + decimal(code as nat) + ")"@
            },
        },
{
}

/// What is said of a refused payload says why.
pub proof fn payload_errors_say_why(e: &IpcError, r: String)
    requires
        call_ensures(IpcError::message, (e,), r),
    ensures
        match *e {
            IpcError::BadMagic(v) => r@ == "unexpected IPC magic 0x"@ + hex_lower(v as nat),
            IpcError::MalformedPayload => r@ == "empty or malformed IPC payload"@,
            IpcError::Oversized(n) => {
                r@ == "IPC payload of "@ + decimal(n as nat) + " bytes exceeds the "@ + decimal(
                    8192,
                ) + " byte limit"@
            },
            IpcError::NotUtf16 => r@ == "IPC payload is not valid UTF-16"@,
            IpcError::BadJson(m) => r@ == "IPC payload is not valid protocol JSON: "@ + m@,
        },
{
}

/// What is said when the resident or the manager fails names the call, or is
/// what is said of the config.
pub proof fn window_errors_name_the_call(
    e: &ResidentError,
    r: String,
    g: &GuiError,
    s: String,
    config: &ConfigError,
    c: String,
)
    requires
        call_ensures(ResidentError::message, (e,), r),
        call_ensures(GuiError::message, (g,), s),
        call_ensures(ConfigError::message, (config,), c),
    ensures
        match *e {
            ResidentError::AlreadyRunning => {
                r@ == "another Project Launcher resident is already running"@
            },
            ResidentError::Config(inner) => inner == *config ==> r@ == c@,
            ResidentError::Win32 { api, code } => {
                r@ == api@ + " failed (GetLastError="@ + decimal(code as nat) + ")"@
            },
            ResidentError::UnsupportedPlatform => r@ == "the resident requires Windows"@,
        },
        match *g {
            GuiError::Config(inner) => inner == *config ==> s@ == c@,
            GuiError::Win32 { api, code } => {
                s@ == api@ + " failed (GetLastError="@ + decimal(code as nat) + ")"@
            },
            GuiError::UnsupportedPlatform => s@ == "the GUI requires Windows"@,
        },
{
}

/// What is logged of a request that started nothing.
pub proof fn refused_requests_are_logged(d: &Dispatch, r: Option<String>)
    requires
        call_ensures(Dispatch::log_line, (d,), r),
    ensures
        d is Started || d is UnknownProfile ==> r is None,
        d is AtCapacity ==> r is Some && r->0@ == "[resident] rejected run request: "@ + decimal(16)
            + " workers already active"@,
        d matches Dispatch::SpawnFailed(e) ==> r is Some && r->0@
            == "[resident] failed to spawn a profile worker: "@ + e@,
{
}

// ---------- notes ----------

/// What is shown of a request that went to the resident: a success when it
/// was taken, a failure when it was refused or did not arrive, and nothing
/// where there is no resident.
pub proof fn forwarded_requests_are_shown(
    id: &str,
    outcome: Result<ForwardOutcome, IpcError>,
    r: Option<Note>,
)
    requires
        call_ensures(forwarded_note, (id, outcome), r),
    ensures
        r is None <==> outcome == Ok::<ForwardOutcome, IpcError>(ForwardOutcome::NoResident),
        r matches Some(note) ==> (note.ok <==> outcome == Ok::<ForwardOutcome, IpcError>(
            ForwardOutcome::Delivered,
        )),
        outcome == Ok::<ForwardOutcome, IpcError>(ForwardOutcome::Delivered) ==> r->0.text@
            == "プロファイル "@ + id@ + " の実行を Resident に転送しました。"@,
        outcome == Ok::<ForwardOutcome, IpcError>(ForwardOutcome::Rejected) ==> r->0.text@
            == "Resident がプロファイル "@ + id@ + " の要求を拒否しました。"@,
        outcome matches Err(e) ==> r->0.text@ == "Resident への転送に失敗: "@ + ipc_error_text(e),
{
}

/// A profile that is run directly is the first that the id names; the note is
/// a success when nothing failed, and nothing is run where there is no such
/// profile or no config.
pub proof fn direct_runs_are_shown<L: Launcher>(
    loaded: &Result<Config, ConfigError>,
    id: &str,
    launcher: &mut L,
    r: Note,
    found: Option<&Profile>,
)
    requires
        call_ensures(run_directly::<L>, (loaded, id, launcher), r),
        loaded matches Ok(config) ==> call_ensures(find_profile, (config, id), found),
    ensures
        loaded is Err || found is None ==> !r.ok && *final(launcher) == *old(launcher),
        loaded matches Err(e) ==> r.text@ == "config の読み込みに失敗: "@ + config_error_text(*e),
        loaded is Ok && found is None ==> r.text@ == "プロファイル "@ + id@
            + " が config にありません。"@,
        loaded is Ok && found is Some ==> exists|result: ProfileResult| #[trigger]
            ran(*old(launcher), found->0@, result, *final(launcher)) && r.text@
                == "プロファイル '"@ + found->0.name@ + "' を直接実行しました: "@ + decimal(
                result.outcomes@.len(),
            ) + " 件中 "@ + decimal(failures(result.outcomes@)) + " 件失敗。"@ && (r.ok <==> forall|i: int|
                0 <= i < result.outcomes@.len() ==> (#[trigger] result.outcomes@[i]).status
                    == ActionStatus::Succeeded),
{
    if let Ok(config) = loaded {
        if let Some(p) = found {
            let j = choose|j: int| #[trigger]
                is_first_named(config@.profiles, id@, j) && *p == config.profiles@[j];
            assert(config@.profiles[j] == p@);
            assert(config@.profiles[j].id == config@.profiles[j].id);
            let (i, result) = choose|i: int, result: ProfileResult|
                is_first_named(config@.profiles, id@, i) && #[trigger] ran(
                    *old(launcher),
                    config@.profiles[i],
                    result,
                    *final(launcher),
                ) && crate::gui::is_direct_note(r, config@.profiles[i].name, result);
            assert(config@.profiles[i].id == config@.profiles[i].id);
            assert(i == j);
            assert(ran(*old(launcher), p@, result, *final(launcher)));
            if r.ok {
                assert forall|k: int| 0 <= k < result.outcomes@.len() implies (
                #[trigger] result.outcomes@[k]).status == ActionStatus::Succeeded by {}
            }
        }
    }
}

/// A test run is shown by a line for each action that was run, in order, and
/// one for those that were skipped, if any; it is a success when nothing
/// failed.
pub proof fn test_runs_are_shown_in_order(
    profile: &Profile,
    result: &ProfileResult,
    r: Note,
    success: bool,
    failed: usize,
)
    requires
        call_ensures(test_note, (profile, result), r),
        call_ensures(ProfileResult::is_success, (result,), success),
        call_ensures(ProfileResult::failure_count, (result,), failed),
    ensures
        r.ok <==> success,
        ({
            let head = "プロファイル '"@ + profile.name@
                + "' のテスト実行が完了しました。\r\n"@;
            let skipped = "  ("@ + decimal(result.skipped_disabled as nat)
                + " 件の無効アクションをスキップ)\r\n"@;
            let sum = decimal(result.outcomes@.len()) + " 件中 "@ + decimal(failed as nat)
                + " 件失敗"@;
            &&& result.skipped_disabled > 0 ==> r.text@ == head + outcome_block(result.outcomes@)
                + skipped + sum
            &&& result.skipped_disabled == 0 ==> r.text@ == head + outcome_block(result.outcomes@)
                + sum
        }),
{
    let head = "プロファイル '"@ + profile.name@ + "' のテスト実行が完了しました。\r\n"@
        + outcome_block(result.outcomes@);
    assert(head + Seq::<char>::empty() =~= head);
}

/// The block of two lists of outcomes is the block of the one and that of the
/// other; that of one outcome is its line.
pub proof fn outcome_blocks_are_made_of_lines(a: Seq<ActionOutcome>, b: Seq<ActionOutcome>)
    ensures
        outcome_block(a + b) == outcome_block(a) + outcome_block(b),
        a.len() == 1 ==> outcome_block(a) == "  "@ + outcome_text(a[0]) + "\r\n"@,
    decreases b.len(),
{
    if a.len() == 1 {
        assert(a.drop_last() =~= Seq::<ActionOutcome>::empty());
        assert(outcome_block(a.drop_last()) =~= Seq::<char>::empty());
        assert(outcome_block(a) =~= "  "@ + outcome_text(a[0]) + "\r\n"@);
    }
    if b.len() == 0 {
        assert(a + b =~= a);
        assert(outcome_block(b) =~= Seq::<char>::empty());
        assert(outcome_block(a) + outcome_block(b) =~= outcome_block(a));
    } else {
        outcome_blocks_are_made_of_lines(a, b.drop_last());
        assert((a + b).drop_last() =~= a + b.drop_last());
        assert((a + b).last() == b.last());
        assert(outcome_block(a + b) =~= outcome_block(a) + outcome_block(b));
    }
}

/// What is shown of shortcuts is a line for each, in order, and a success
/// when all were made.
pub proof fn made_shortcuts_are_shown_in_order(
    made: &Vec<Result<String, ShortcutError>>,
    r: Note,
    n: int,
)
    requires
        call_ensures(shortcut_note, (made,), r),
        0 <= n <= made@.len(),
    ensures
        r.ok <==> forall|i: int| 0 <= i < made@.len() ==> (#[trigger] made@[i]) is Ok,
        r.text@ == made_block(made@.take(n)) + made_block(made@.skip(n)),
        made@.len() == 0 ==> r.text@.len() == 0,
        made@.len() == 1 && made@[0] is Ok ==> r.text@ == "作成: "@ + made@[0]->Ok_0@ + "\r\n"@,
{
    made_blocks(made@.take(n), made@.skip(n));
    assert(made@.take(n) + made@.skip(n) =~= made@);
    if made@.len() == 1 {
        assert(made@.drop_last() =~= Seq::<Result<String, ShortcutError>>::empty());
        assert(made_block(made@.drop_last()) =~= Seq::<char>::empty());
        assert(made_block(made@) =~= crate::gui::made_line(made@[0]));
    }
}

proof fn made_blocks(a: Seq<Result<String, ShortcutError>>, b: Seq<Result<String, ShortcutError>>)
    ensures
        made_block(a + b) == made_block(a) + made_block(b),
    decreases b.len(),
{
    if b.len() == 0 {
        assert(a + b =~= a);
        assert(made_block(b) =~= Seq::<char>::empty());
        assert(made_block(a) + made_block(b) =~= made_block(a));
    } else {
        made_blocks(a, b.drop_last());
        assert((a + b).drop_last() =~= a + b.drop_last());
        assert((a + b).last() == b.last());
        assert(made_block(a + b) =~= made_block(a) + made_block(b));
    }
}

/// A box that could not be changed goes back.
pub proof fn refused_boxes_go_back(
    checked: bool,
    outcome: Result<(), AutostartError>,
    r: Option<(String, bool)>,
)
    requires
        call_ensures(autostart_changed, (checked, outcome), r),
    ensures
        r is None <==> outcome is Ok,
        r matches Some((text, back)) ==> back != checked && text@
            == "自動開始の設定に失敗しました: "@ + autostart_error_text(outcome->Err_0),
{
}

} // verus!
