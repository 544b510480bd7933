//! Starting the resident at Windows logon (the HKCU Run key).
//!
//! `ProjectLauncher = "<exe>" --resident` is registered under
//! `HKCU\Software\Microsoft\Windows\CurrentVersion\Run`. HKCU needs no
//! administrator rights and is each user's own.

use crate::actions::command_text;
use crate::args::{selected, ModeView};
use crate::number::{decimal, decimal_text};
use crate::utf16::{encode_wide, wide};
use vstd::prelude::*;
use vstd::string::*;

verus! {

#[derive(Debug)]
pub enum AutostartError {
    /// The path of the running executable cannot be had.
    NoExePath(String),
    /// The path of the executable is not valid Unicode.
    NonUnicodeExePath,
    /// A registry call failed.
    Registry { api: &'static str, code: u32 },
}

/// The text of an autostart error.
pub open spec fn autostart_error_text(e: AutostartError) -> Seq<char> {
    match e {
        AutostartError::NoExePath(e) => "cannot resolve the exe path: "@ + e@,
        AutostartError::NonUnicodeExePath => "the exe path is not valid Unicode"@,
        AutostartError::Registry { api, code } => {
            api@ + " failed (WIN32_ERROR="@ + decimal(code as nat) + ")"@
        },
    }
}

impl AutostartError {
    pub fn message(&self) -> (r: String)
        ensures
            r@ == autostart_error_text(*self),
    {
        match self {
            AutostartError::NoExePath(e) => {
                "cannot resolve the exe path: ".to_owned().concat(e.as_str())
            },
            AutostartError::NonUnicodeExePath => "the exe path is not valid Unicode".to_owned(),
            AutostartError::Registry { api, code } => {
                (*api).to_owned().concat(" failed (WIN32_ERROR=").concat(
                    decimal_text(*code as u64).as_str(),
                ).concat(")")
            },
        }
    }
}

// ---------- the registered command ----------

pub const RUN_KEY: &'static str = "Software\\Microsoft\\Windows\\CurrentVersion\\Run";

pub const VALUE_NAME: &'static str = "ProjectLauncher";

/// The command that starts the resident of an executable.
pub open spec fn resident_command(exe: Seq<char>) -> Seq<char> {
    "\""@ + exe + "\" --resident"@
}

/// The Run-key value written on enable: quoted exe path plus `--resident`.
/// `exe` is the path of the running executable, `None` where it is not valid
/// Unicode, or why it cannot be had.
pub fn run_command(exe: Result<Option<String>, String>) -> (r: Result<String, AutostartError>)
    ensures
        match exe {
            Err(e) => r == Err::<String, AutostartError>(AutostartError::NoExePath(e)),
            Ok(None) => r == Err::<String, AutostartError>(AutostartError::NonUnicodeExePath),
            Ok(Some(path)) => r matches Ok(command) && command@ == resident_command(path@),
        },
{
    match exe {
        Err(e) => Err(AutostartError::NoExePath(e)),
        Ok(None) => Err(AutostartError::NonUnicodeExePath),
        Ok(Some(path)) => {
            Ok("\"".to_owned().concat(path.as_str()).concat("\" --resident"))
        },
    }
}

/// What happens to the Run value.
#[derive(Debug)]
pub enum RunEntry {
    /// It is set to these units, which end in NUL.
    Write { data: Vec<u16> },
    /// It is removed; removing an absent one is a no-op.
    Delete,
}

/// The Run value after the entry, whatever it was before.
pub open spec fn value_after(entry: RunEntry) -> Option<Seq<u16>> {
    match entry {
        RunEntry::Write { data } => Some(data@),
        RunEntry::Delete => None,
    }
}

/// Registers or removes the autostart entry: what has to happen to the Run
/// value.
pub fn set(enabled: bool, exe: Result<Option<String>, String>) -> (r: Result<
    RunEntry,
    AutostartError,
>)
    ensures
        if enabled {
            match exe {
                Err(e) => r == Err::<RunEntry, AutostartError>(AutostartError::NoExePath(e)),
                Ok(None) => r == Err::<RunEntry, AutostartError>(
                    AutostartError::NonUnicodeExePath,
                ),
                Ok(Some(path)) => r matches Ok(entry) && value_after(entry) == Some(
                    wide(resident_command(path@)),
                ),
            }
        } else {
            r matches Ok(entry) && value_after(entry) is None
        },
{
    if enabled {
        match run_command(exe) {
            Ok(command) => Ok(RunEntry::Write { data: encode_wide(command.as_str()) }),
            Err(e) => Err(e),
        }
    } else {
        Ok(RunEntry::Delete)
    }
}

/// What is registered runs the executable, quoted as the programs of actions
/// are, in the resident's mode.
pub proof fn registered_command_starts_the_resident(exe: Seq<char>)
    ensures
        resident_command(exe) == command_text(exe, "--resident"@),
        selected(seq![Some("--resident"@)]) == Ok::<ModeView, Seq<char>>(ModeView::Resident),
{
    reveal_strlit("\"");
    reveal_strlit(" ");
    reveal_strlit("--resident");
    reveal_strlit("\" --resident");
    assert(resident_command(exe) =~= command_text(exe, "--resident"@));
}

// ---------- answers of the registry ----------

/// The code for a key or value that is not there.
pub const ERROR_FILE_NOT_FOUND: u32 = 2;

/// Whether an error is the given call's with the given code.
pub open spec fn is_registry_error(e: AutostartError, api: Seq<char>, code: u32) -> bool {
    e matches AutostartError::Registry { api: a, code: c } && a@ == api && c == code
}

fn win32(api: &'static str, code: u32) -> (r: AutostartError)
    ensures
        is_registry_error(r, api@, code),
{
    AutostartError::Registry { api, code }
}

fn found(api: &'static str, rc: u32) -> (r: Result<bool, AutostartError>)
    ensures
        match r {
            Ok(there) => there == (rc == 0) && (rc == 0 || rc == ERROR_FILE_NOT_FOUND),
            Err(e) => rc != 0 && rc != ERROR_FILE_NOT_FOUND && is_registry_error(e, api@, rc),
        },
{
    if rc == ERROR_FILE_NOT_FOUND {
        return Ok(false);
    }
    if rc != 0 {
        return Err(win32(api, rc));
    }
    Ok(true)
}

/// Whether RegOpenKeyExW found the Run key.
pub fn key_opened(rc: u32) -> (r: Result<bool, AutostartError>)
    ensures
        match r {
            Ok(there) => there == (rc == 0) && (rc == 0 || rc == ERROR_FILE_NOT_FOUND),
            Err(e) => rc != 0 && rc != ERROR_FILE_NOT_FOUND && is_registry_error(
                e,
                "RegOpenKeyExW"@,
                rc,
            ),
        },
{
    found("RegOpenKeyExW", rc)
}

/// Whether the Run key contains a `ProjectLauncher` value. `open` is what
/// RegOpenKeyExW answered, and `query` asks RegQueryValueExW for the value;
/// it is asked only in a key that was opened.
pub fn is_enabled<Q: FnOnce() -> u32>(open: u32, query: Q) -> (r: Result<bool, AutostartError>)
    requires
        open == 0 ==> call_requires(query, ()),
    ensures
        if open == ERROR_FILE_NOT_FOUND {
            r == Ok::<bool, AutostartError>(false)
        } else if open != 0 {
            r matches Err(e) && is_registry_error(e, "RegOpenKeyExW"@, open)
        } else {
            exists|rc: u32| #[trigger]
                call_ensures(query, (), rc) && match r {
                    Ok(there) => there == (rc == 0) && (rc == 0 || rc == ERROR_FILE_NOT_FOUND),
                    Err(e) => rc != 0 && rc != ERROR_FILE_NOT_FOUND && is_registry_error(
                        e,
                        "RegQueryValueExW"@,
                        rc,
                    ),
                }
        },
{
    match key_opened(open) {
        Err(e) => Err(e),
        Ok(false) => Ok(false),
        Ok(true) => {
            let rc: u32 = query();
            assert(call_ensures(query, (), rc));
            found("RegQueryValueExW", rc)
        },
    }
}

/// Whether RegCreateKeyExW opened or created the Run key. The key is present
/// on a normal install, but a missing one is recreated rather than failing
/// the write.
pub fn key_created(rc: u32) -> (r: Result<(), AutostartError>)
    ensures
        match r {
            Ok(()) => rc == 0,
            Err(e) => rc != 0 && is_registry_error(e, "RegCreateKeyExW"@, rc),
        },
{
    if rc != 0 {
        return Err(win32("RegCreateKeyExW", rc));
    }
    Ok(())
}

/// Whether RegSetValueExW wrote the value.
pub fn value_written(rc: u32) -> (r: Result<(), AutostartError>)
    ensures
        match r {
            Ok(()) => rc == 0,
            Err(e) => rc != 0 && is_registry_error(e, "RegSetValueExW"@, rc),
        },
{
    if rc != 0 {
        return Err(win32("RegSetValueExW", rc));
    }
    Ok(())
}

/// Whether the value is gone after RegDeleteValueW: deleting an absent one
/// is a no-op.
pub fn value_deleted(rc: u32) -> (r: Result<(), AutostartError>)
    ensures
        match r {
            Ok(()) => rc == 0 || rc == ERROR_FILE_NOT_FOUND,
            Err(e) => rc != 0 && rc != ERROR_FILE_NOT_FOUND && is_registry_error(
                e,
                "RegDeleteValueW"@,
                rc,
            ),
        },
{
    if rc != 0 && rc != ERROR_FILE_NOT_FOUND {
        return Err(win32("RegDeleteValueW", rc));
    }
    Ok(())
}

} // verus!
