//! The profile manager: profile list, launching, saving, shortcut creation
//! and the autostart toggle.
//!
//! The manager edits `%LOCALAPPDATA%\ProjectLauncher\config.json` directly. A
//! running resident picks changes up on the next run request via the mtime
//! check in `ResidentState::current_config`, so no reload IPC is needed.
//! Both `ProjectLauncher.exe` (no args) and `--settings` open this window.
//!
//! What the main window holds, and what its commands do to it, is decided
//! here; windows, message boxes, threads and files are the caller's.

use crate::args;
use crate::autostart::{autostart_error_text, AutostartError};
use crate::cli::all_created;
use crate::config::{
    guid_key_of, is_bare_guid, is_guid, is_guid_hyphen, profile_views, unbraced, Config,
    ConfigView, Profile, ProfileView, CURRENT_CONFIG_VERSION,
};
use crate::ipc::{ipc_error_text, ForwardOutcome, IpcError};
use crate::layout::is_completion;
use crate::number::{
    decimal, decimal_text, hex_fixed, hex_fixed_digits, hex_fixed_is_injective, hex_fixed_text,
    power_of_16,
};
use crate::profile::{
    all_succeeded, execute_profile, failures, find_profile, is_first_named, is_named,
    outcome_text, ran, ActionOutcome, Launcher, ProfileResult,
};
use crate::shortcut::{shortcut_error_text, ShortcutError};
use crate::storage::{config_error_text, ConfigError};
use crate::text::{is_hex, is_lower, upper};
use crate::validation::{valid_config, valid_profile};
use vstd::prelude::*;
use vstd::string::*;

verus! {

#[derive(Debug)]
pub enum GuiError {
    /// A Win32 call failed; `code` is GetLastError().
    Win32 { api: &'static str, code: u32 },
    Config(ConfigError),
    /// The host OS does not provide the required Win32 API.
    UnsupportedPlatform,
}

/// The text of a GUI error.
pub open spec fn gui_error_text(e: GuiError) -> Seq<char> {
    match e {
        GuiError::Win32 { api, code } => {
            api@ + " failed (GetLastError="@ + decimal(code as nat) + ")"@
        },
        GuiError::Config(e) => config_error_text(e),
        GuiError::UnsupportedPlatform => "the GUI requires Windows"@,
    }
}

impl GuiError {
    pub fn message(&self) -> (r: String)
        ensures
            r@ == gui_error_text(*self),
    {
        match self {
            GuiError::Win32 { api, code } => {
                (*api).to_owned().concat(" failed (GetLastError=").concat(
                    decimal_text(*code as u64).as_str(),
                ).concat(")")
            },
            GuiError::Config(e) => e.message(),
            GuiError::UnsupportedPlatform => "the GUI requires Windows".to_owned(),
        }
    }
}

// ---------- opening ----------

/// What opening the manager comes to.
#[derive(Debug)]
pub enum Opening {
    /// Open the window on the config.
    Ready { config: Config },
    /// Ask whether to start from an empty config; see `start_empty`.
    Ask { question: String, error: ConfigError },
    /// Show the text, then fail with the error. There is no console to print
    /// to: failing silently would make a double click look like nothing
    /// happened.
    Refuse { text: String, error: ConfigError },
}

/// Opens the manager on what loading the config at `path` gave; a missing
/// file offers to start from an empty one. `not_found` is whether the I/O
/// call that failed, if one did, said that there is no such file.
pub fn open_config(path: &str, loaded: Result<Config, ConfigError>, not_found: bool) -> (r: Opening)
    ensures
        match loaded {
            Ok(config) => r == (Opening::Ready { config }),
            Err(e) => if e is Io && not_found {
                r matches Opening::Ask { question, error } && error == e && question@
                    == "設定ファイルが見つかりません。\r\n"@ + path@
                    + "\r\n\r\n新規作成しますか?"@
            } else {
                r matches Opening::Refuse { text, error } && error == e && text@
                    == "設定ファイルを読み込めません。\r\n"@ + config_error_text(e)
            },
        },
{
    match loaded {
        Ok(config) => Opening::Ready { config },
        Err(e) => {
            let missing = match &e {
                ConfigError::Io { .. } => not_found,
                _ => false,
            };
            if missing {
                let question = "設定ファイルが見つかりません。\r\n".to_owned().concat(path).concat(
                    "\r\n\r\n新規作成しますか?",
                );
                Opening::Ask { question, error: e }
            } else {
                let text = "設定ファイルを読み込めません。\r\n".to_owned().concat(
                    e.message().as_str(),
                );
                Opening::Refuse { text, error: e }
            }
        },
    }
}

/// Starts from an empty config when the user agreed to, else fails for the
/// reason that the config could not be loaded.
pub fn start_empty(agreed: bool, error: ConfigError) -> (r: Result<Config, GuiError>)
    ensures
        if agreed {
            r matches Ok(config) && config@ == (ConfigView {
                version: CURRENT_CONFIG_VERSION,
                profiles: Seq::empty(),
            })
        } else {
            r == Err::<Config, GuiError>(GuiError::Config(error))
        },
{
    if !agreed {
        return Err(GuiError::Config(error));
    }
    let config = Config { version: CURRENT_CONFIG_VERSION, profiles: Vec::new() };
    assert(config@.profiles =~= Seq::<ProfileView>::empty());
    Ok(config)
}

// ---------- new profiles ----------

/// `{XXXXXXXX-XXXX-XXXX-XXXX-XXXXXXXXXXXX}` of the parts of a GUID.
pub open spec fn guid_text(data1: u32, data2: u16, data3: u16, data4: Seq<u8>) -> Seq<char> {
    "{"@ + hex_fixed(data1 as nat, 8) + "-"@ + hex_fixed(data2 as nat, 4) + "-"@ + hex_fixed(
        data3 as nat,
        4,
    ) + "-"@ + hex_fixed(data4[0] as nat, 2) + hex_fixed(data4[1] as nat, 2) + "-"@ + hex_fixed(
        data4[2] as nat,
        2,
    ) + hex_fixed(data4[3] as nat, 2) + hex_fixed(data4[4] as nat, 2) + hex_fixed(
        data4[5] as nat,
        2,
    ) + hex_fixed(data4[6] as nat, 2) + hex_fixed(data4[7] as nat, 2) + "}"@
}

/// The text of the GUID that CoCreateGuid made: `hr` is what it answered,
/// `code` GetLastError() after it, and the parts what it left.
pub fn new_guid(hr: i32, code: u32, data1: u32, data2: u16, data3: u16, data4: &[u8; 8]) -> (r:
    Result<String, GuiError>)
    ensures
        match r {
            Ok(text) => hr >= 0 && text@ == guid_text(data1, data2, data3, data4@),
            Err(GuiError::Win32 { api, code: c }) => {
                hr < 0 && api@ == "CoCreateGuid"@ && c == code
            },
            Err(_) => false,
        },
{
    if hr < 0 {
        return Err(GuiError::Win32 { api: "CoCreateGuid", code });
    }
    Ok(
        "{".to_owned().concat(hex_fixed_text(data1 as u64, 8).as_str()).concat("-").concat(
            hex_fixed_text(data2 as u64, 4).as_str(),
        ).concat("-").concat(hex_fixed_text(data3 as u64, 4).as_str()).concat("-").concat(
            hex_fixed_text(data4[0] as u64, 2).as_str(),
        ).concat(hex_fixed_text(data4[1] as u64, 2).as_str()).concat("-").concat(
            hex_fixed_text(data4[2] as u64, 2).as_str(),
        ).concat(hex_fixed_text(data4[3] as u64, 2).as_str()).concat(
            hex_fixed_text(data4[4] as u64, 2).as_str(),
        ).concat(hex_fixed_text(data4[5] as u64, 2).as_str()).concat(
            hex_fixed_text(data4[6] as u64, 2).as_str(),
        ).concat(hex_fixed_text(data4[7] as u64, 2).as_str()).concat("}"),
    )
}

/// The parts between the braces.
spec fn guid_inside(data1: u32, data2: u16, data3: u16, data4: Seq<u8>) -> Seq<char> {
    hex_fixed(data1 as nat, 8) + seq!['-'] + hex_fixed(data2 as nat, 4) + seq!['-'] + hex_fixed(
        data3 as nat,
        4,
    ) + seq!['-'] + hex_fixed(data4[0] as nat, 2) + hex_fixed(data4[1] as nat, 2) + seq!['-']
        + hex_fixed(data4[2] as nat, 2) + hex_fixed(data4[3] as nat, 2) + hex_fixed(
        data4[4] as nat,
        2,
    ) + hex_fixed(data4[5] as nat, 2) + hex_fixed(data4[6] as nat, 2) + hex_fixed(
        data4[7] as nat,
        2,
    )
}

/// A run of `width` upper-case hexadecimal digits.
spec fn is_digits(s: Seq<char>, width: nat) -> bool {
    s.len() == width && forall|i: int|
        0 <= i < width ==> is_hex(#[trigger] s[i]) && !is_lower(s[i])
}

/// Each part of a GUID is a run of digits as long as the part asks for.
proof fn guid_digits(data1: u32, data2: u16, data3: u16, data4: Seq<u8>)
    ensures
        is_digits(hex_fixed(data1 as nat, 8), 8),
        is_digits(hex_fixed(data2 as nat, 4), 4),
        is_digits(hex_fixed(data3 as nat, 4), 4),
        forall|i: int| is_digits(hex_fixed(#[trigger] data4[i] as nat, 2), 2),
{
    hex_fixed_digits(data1 as nat, 8);
    hex_fixed_digits(data2 as nat, 4);
    hex_fixed_digits(data3 as nat, 4);
    assert forall|i: int| is_digits(hex_fixed(#[trigger] data4[i] as nat, 2), 2) by {
        hex_fixed_digits(data4[i] as nat, 2);
    }
}

proof fn guid_shape(data1: u32, data2: u16, data3: u16, data4: Seq<u8>)
    requires
        data4.len() == 8,
    ensures
        unbraced(guid_text(data1, data2, data3, data4)) == guid_inside(data1, data2, data3, data4),
        is_bare_guid(guid_inside(data1, data2, data3, data4)),
        upper(guid_inside(data1, data2, data3, data4)) == guid_inside(data1, data2, data3, data4),
{
    reveal_strlit("{");
    reveal_strlit("-");
    reveal_strlit("}");
    guid_digits(data1, data2, data3, data4);
    let g = guid_text(data1, data2, data3, data4);
    let s = guid_inside(data1, data2, data3, data4);
    assert(s.len() == 36);
    assert(g =~= seq!['{'] + s + seq!['}']);
    assert(g.subrange(1, g.len() - 1) =~= s);
    assert forall|i: int| 0 <= i < 36 implies if is_guid_hyphen(i) {
        #[trigger] s[i] == '-'
    } else {
        is_hex(s[i]) && !is_lower(s[i])
    } by {}
    assert forall|i: int| 0 <= i < 36 implies #[trigger] upper(s)[i] == s[i] by {
        assert(!is_lower(s[i]));
    }
    assert(upper(s) =~= s);
}

/// Every GUID that the system makes can be a profile's id.
pub proof fn new_guids_are_valid(data1: u32, data2: u16, data3: u16, data4: Seq<u8>)
    requires
        data4.len() == 8,
    ensures
        is_guid(guid_text(data1, data2, data3, data4)),
{
    guid_shape(data1, data2, data3, data4);
}

/// What a new profile starts as.
pub fn blank_profile(guid: String) -> (r: Profile)
    ensures
        r.id == guid,
        r.name@ == "新しいプロファイル"@,
        r.actions@.len() == 0,
{
    Profile { id: guid, name: "新しいプロファイル".to_owned(), actions: Vec::new() }
}

proof fn guid_parts(data1: u32, data2: u16, data3: u16, data4: Seq<u8>)
    requires
        data4.len() == 8,
    ensures
        guid_inside(data1, data2, data3, data4).subrange(0, 8) == hex_fixed(data1 as nat, 8),
        guid_inside(data1, data2, data3, data4).subrange(9, 13) == hex_fixed(data2 as nat, 4),
        guid_inside(data1, data2, data3, data4).subrange(14, 18) == hex_fixed(data3 as nat, 4),
        guid_inside(data1, data2, data3, data4).subrange(19, 21) == hex_fixed(data4[0] as nat, 2),
        guid_inside(data1, data2, data3, data4).subrange(21, 23) == hex_fixed(data4[1] as nat, 2),
        guid_inside(data1, data2, data3, data4).subrange(24, 26) == hex_fixed(data4[2] as nat, 2),
        guid_inside(data1, data2, data3, data4).subrange(26, 28) == hex_fixed(data4[3] as nat, 2),
        guid_inside(data1, data2, data3, data4).subrange(28, 30) == hex_fixed(data4[4] as nat, 2),
        guid_inside(data1, data2, data3, data4).subrange(30, 32) == hex_fixed(data4[5] as nat, 2),
        guid_inside(data1, data2, data3, data4).subrange(32, 34) == hex_fixed(data4[6] as nat, 2),
        guid_inside(data1, data2, data3, data4).subrange(34, 36) == hex_fixed(data4[7] as nat, 2),
{
    guid_digits(data1, data2, data3, data4);
}

proof fn byte_of_digits(a: u8, b: u8)
    requires
        hex_fixed(a as nat, 2) == hex_fixed(b as nat, 2),
    ensures
        a == b,
{
    reveal_with_fuel(power_of_16, 3);
    hex_fixed_is_injective(a as nat, b as nat, 2);
}

/// Different GUIDs never name the same profile.
pub proof fn different_guids_name_different_profiles(
    a1: u32,
    a2: u16,
    a3: u16,
    a4: Seq<u8>,
    b1: u32,
    b2: u16,
    b3: u16,
    b4: Seq<u8>,
)
    requires
        a4.len() == 8,
        b4.len() == 8,
        guid_key_of(guid_text(a1, a2, a3, a4)) == guid_key_of(guid_text(b1, b2, b3, b4)),
    ensures
        a1 == b1,
        a2 == b2,
        a3 == b3,
        a4 == b4,
{
    guid_shape(a1, a2, a3, a4);
    guid_shape(b1, b2, b3, b4);
    guid_parts(a1, a2, a3, a4);
    guid_parts(b1, b2, b3, b4);
    reveal_with_fuel(power_of_16, 9);
    hex_fixed_is_injective(a1 as nat, b1 as nat, 8);
    hex_fixed_is_injective(a2 as nat, b2 as nat, 4);
    hex_fixed_is_injective(a3 as nat, b3 as nat, 4);
    byte_of_digits(a4[0], b4[0]);
    byte_of_digits(a4[1], b4[1]);
    byte_of_digits(a4[2], b4[2]);
    byte_of_digits(a4[3], b4[3]);
    byte_of_digits(a4[4], b4[4]);
    byte_of_digits(a4[5], b4[5]);
    byte_of_digits(a4[6], b4[6]);
    byte_of_digits(a4[7], b4[7]);
    assert(a4 =~= b4);
}

// ---------- the main window ----------

/// What the main window holds.
pub struct MainModel {
    pub config: Config,
    pub config_path: String,
    /// Mtime of the config file when it was loaded, in nanoseconds since the
    /// Unix epoch (None when it did not exist). It is compared against the
    /// on-disk mtime before overwriting, so an external edit made while this
    /// window is open is not silently discarded.
    pub config_mtime: Option<i128>,
    /// Set while a run worker is in flight so the run button and list
    /// double-clicks do not spawn a duplicate run.
    pub running: bool,
}

/// What launching the selected profile comes to.
#[derive(Debug)]
pub enum LaunchStart {
    /// A run is in flight: say so and do nothing.
    Busy { text: &'static str },
    /// Nothing is selected.
    Nothing,
    /// Run the profile with this id on a worker.
    Run { id: String },
}

/// The line of a profile in the list box.
pub fn profile_line(profile: &Profile) -> (r: String)
    ensures
        r@ == profile.name@ + "  ("@ + decimal(profile.actions@.len()) + " actions)"@,
{
    profile.name.clone().concat("  (").concat(
        decimal_text(profile.actions.len() as u64).as_str(),
    ).concat(" actions)")
}

/// What is asked before a profile is deleted.
pub fn delete_question(profile: &Profile) -> (r: String)
    ensures
        r@ == "プロファイル '"@ + profile.name@ + "' を削除しますか?"@,
{
    "プロファイル '".to_owned().concat(profile.name.as_str()).concat("' を削除しますか?")
}

impl MainModel {
    /// Starts the selected profile, unless a run is in flight.
    pub fn launch_selected(&mut self, selected: Option<usize>) -> (r: LaunchStart)
        requires
            selected matches Some(i) ==> i < old(self).config.profiles@.len(),
        ensures
            final(self).config == old(self).config,
            final(self).config_path == old(self).config_path,
            final(self).config_mtime == old(self).config_mtime,
            if old(self).running {
                &&& final(self).running
                &&& r matches LaunchStart::Busy { text } && text@ == "実行中です。"@
            } else {
                match selected {
                    None => r is Nothing && !final(self).running,
                    Some(i) => {
                        &&& final(self).running
                        &&& r matches LaunchStart::Run { id } && id@
                            == old(self).config.profiles@[i as int].id@
                    },
                }
            },
    {
        if self.running {
            return LaunchStart::Busy { text: "実行中です。" };
        }
        match selected {
            None => LaunchStart::Nothing,
            Some(i) => {
                self.running = true;
                LaunchStart::Run { id: self.config.profiles[i].id.clone() }
            },
        }
    }

    /// Notes that a run is over when the message that says so is a worker's,
    /// and says whether it is.
    pub fn launch_done(&mut self, wparam: usize, lparam: isize) -> (r: bool)
        ensures
            r == (wparam == crate::layout::POST_MAGIC && lparam != 0),
            *final(self) == if r {
                (MainModel { running: false, ..*old(self) })
            } else {
                *old(self)
            },
    {
        if is_completion(wparam, lparam) {
            self.running = false;
            return true;
        }
        false
    }

    /// The config with a profile added.
    pub fn with_added(&self, profile: Profile) -> (r: Config)
        ensures
            r@ == (ConfigView {
                version: self.config@.version,
                profiles: self.config@.profiles.push(profile@),
            }),
    {
        let mut candidate = self.config.clone();
        let ghost before = candidate.profiles@;
        candidate.profiles.push(profile);
        assert(profile_views(candidate.profiles@) =~= profile_views(before).push(profile@));
        candidate
    }

    /// The config with a profile in the place of the one at `index`.
    pub fn with_edited(&self, index: usize, profile: Profile) -> (r: Config)
        requires
            index < self.config.profiles@.len(),
        ensures
            r@ == (ConfigView {
                version: self.config@.version,
                profiles: self.config@.profiles.update(index as int, profile@),
            }),
    {
        let mut candidate = self.config.clone();
        let ghost before = candidate.profiles@;
        assert(profile_views(before).len() == before.len());
        candidate.profiles.set(index, profile);
        assert(profile_views(candidate.profiles@) =~= profile_views(before).update(
            index as int,
            profile@,
        ));
        candidate
    }

    /// The config without the profile at `index`.
    pub fn with_deleted(&self, index: usize) -> (r: Config)
        requires
            index < self.config.profiles@.len(),
        ensures
            r@ == (ConfigView {
                version: self.config@.version,
                profiles: self.config@.profiles.remove(index as int),
            }),
    {
        let mut candidate = self.config.clone();
        let ghost before = candidate.profiles@;
        assert(profile_views(before).len() == before.len());
        let _ = candidate.profiles.remove(index);
        assert(profile_views(candidate.profiles@) =~= profile_views(before).remove(index as int));
        candidate
    }

    /// What to ask before the config file is overwritten, where its mtime
    /// differs from what this window loaded: an external edit happened while
    /// the window was open, and an unconditional write would silently
    /// discard it. `disk` is the mtime that the file has now.
    pub fn save_question(&self, disk: Option<i128>) -> (r: Option<&'static str>)
        ensures
            if disk == self.config_mtime {
                r is None
            } else {
                r matches Some(text) && text@
                    == "設定ファイルが外部で変更されています。上書きしますか?"@
            },
    {
        if disk == self.config_mtime {
            None
        } else {
            Some("設定ファイルが外部で変更されています。上書きしますか?")
        }
    }

    /// Takes over a candidate once it was saved, with the mtime that the file
    /// has then; a candidate that could not be saved changes nothing, so the
    /// window stays identical to the file instead of diverging, and the text
    /// to show is given.
    pub fn saved(
        &mut self,
        candidate: Config,
        outcome: Result<(), ConfigError>,
        modified: Option<i128>,
    ) -> (r: Result<(), String>)
        ensures
            match outcome {
                Ok(()) => {
                    &&& r is Ok
                    &&& *final(self) == (MainModel {
                        config: candidate,
                        config_mtime: modified,
                        ..*old(self)
                    })
                },
                Err(e) => {
                    &&& r matches Err(text) && text@ == "config の保存に失敗しました: "@
                        + config_error_text(e)
                    &&& *final(self) == *old(self)
                },
            },
    {
        match outcome {
            Ok(()) => {
                self.config = candidate;
                self.config_mtime = modified;
                Ok(())
            },
            Err(e) => Err(
                "config の保存に失敗しました: ".to_owned().concat(e.message().as_str()),
            ),
        }
    }
}

// ---------- notes to the user ----------

/// A text to show, with the icon of a success or of a failure.
#[derive(Debug)]
pub struct Note {
    pub ok: bool,
    pub text: String,
}

/// The run path shared with the command line: what to show of a request that
/// was forwarded to the resident; `None` when there is no resident, and the
/// profile is run directly.
pub fn forwarded_note(id: &str, outcome: Result<ForwardOutcome, IpcError>) -> (r: Option<Note>)
    ensures
        match outcome {
            Ok(ForwardOutcome::Delivered) => r matches Some(note) && note.ok && note.text@
                == "プロファイル "@ + id@ + " の実行を Resident に転送しました。"@,
            Ok(ForwardOutcome::Rejected) => r matches Some(note) && !note.ok && note.text@
                == "Resident がプロファイル "@ + id@ + " の要求を拒否しました。"@,
            Ok(ForwardOutcome::NoResident) => r is None,
            Err(e) => r matches Some(note) && !note.ok && note.text@
                == "Resident への転送に失敗: "@ + ipc_error_text(e),
        },
{
    match outcome {
        Ok(ForwardOutcome::Delivered) => Some(
            Note {
                ok: true,
                text: "プロファイル ".to_owned().concat(id).concat(
                    " の実行を Resident に転送しました。",
                ),
            },
        ),
        Ok(ForwardOutcome::Rejected) => Some(
            Note {
                ok: false,
                text: "Resident がプロファイル ".to_owned().concat(id).concat(
                    " の要求を拒否しました。",
                ),
            },
        ),
        Ok(ForwardOutcome::NoResident) => None,
        Err(e) => Some(
            Note {
                ok: false,
                text: "Resident への転送に失敗: ".to_owned().concat(e.message().as_str()),
            },
        ),
    }
}

/// What is shown of a profile that was run directly.
pub open spec fn is_direct_note(note: Note, name: Seq<char>, result: ProfileResult) -> bool {
    &&& note.ok == all_succeeded(result.outcomes@)
    &&& note.text@ == "プロファイル '"@ + name + "' を直接実行しました: "@ + decimal(
        result.outcomes@.len(),
    ) + " 件中 "@ + decimal(failures(result.outcomes@)) + " 件失敗。"@
}

/// Runs the profile that an id names in what loading the config gave, and
/// says what to show of that.
pub fn run_directly<L: Launcher>(
    loaded: &Result<Config, ConfigError>,
    id: &str,
    launcher: &mut L,
) -> (r: Note)
    ensures
        match *loaded {
            Err(e) => {
                &&& !r.ok && r.text@ == "config の読み込みに失敗: "@ + config_error_text(e)
                &&& *final(launcher) == *old(launcher)
            },
            Ok(config) => if is_named(config@.profiles, id@) {
                exists|i: int, result: ProfileResult|
                    is_first_named(config@.profiles, id@, i) && #[trigger] ran(
                        *old(launcher),
                        config@.profiles[i],
                        result,
                        *final(launcher),
                    ) && is_direct_note(r, config@.profiles[i].name, result)
            } else {
                &&& !r.ok && r.text@ == "プロファイル "@ + id@ + " が config にありません。"@
                &&& *final(launcher) == *old(launcher)
            },
        },
{
    let config = match loaded {
        Ok(config) => config,
        Err(e) => {
            return Note {
                ok: false,
                text: "config の読み込みに失敗: ".to_owned().concat(e.message().as_str()),
            };
        },
    };
    let profile = match find_profile(config, id) {
        Some(profile) => profile,
        None => {
            return Note {
                ok: false,
                text: "プロファイル ".to_owned().concat(id).concat(" が config にありません。"),
            };
        },
    };
    let ghost i = choose|i: int| #[trigger]
        is_first_named(config@.profiles, id@, i) && *profile == config.profiles@[i];
    let result = execute_profile(profile, launcher);
    let text = "プロファイル '".to_owned().concat(profile.name.as_str()).concat(
        "' を直接実行しました: ",
    ).concat(decimal_text(result.outcomes.len() as u64).as_str()).concat(" 件中 ").concat(
        decimal_text(result.failure_count() as u64).as_str(),
    ).concat(" 件失敗。");
    let note = Note { ok: result.is_success(), text };
    assert(is_first_named(config@.profiles, id@, i));
    assert(ran(*old(launcher), config@.profiles[i], result, *launcher));
    note
}

/// A line for each outcome.
pub open spec fn outcome_block(outcomes: Seq<ActionOutcome>) -> Seq<char>
    decreases outcomes.len(),
{
    if outcomes.len() == 0 {
        Seq::empty()
    } else {
        outcome_block(outcomes.drop_last()) + ("  "@ + outcome_text(outcomes.last()) + "\r\n"@)
    }
}

/// A line on disabled actions, where there are any.
pub open spec fn skipped_block(skipped: nat) -> Seq<char> {
    if skipped > 0 {
        "  ("@ + decimal(skipped) + " 件の無効アクションをスキップ)\r\n"@
    } else {
        Seq::empty()
    }
}

/// What is shown after a test launch.
pub fn test_note(profile: &Profile, result: &ProfileResult) -> (r: Note)
    ensures
        r.ok == all_succeeded(result.outcomes@),
        r.text@ == "プロファイル '"@ + profile.name@
            + "' のテスト実行が完了しました。\r\n"@ + outcome_block(result.outcomes@)
            + skipped_block(result.skipped_disabled as nat) + (decimal(result.outcomes@.len())
            + " 件中 "@ + decimal(failures(result.outcomes@)) + " 件失敗"@),
{
    let mut text = "プロファイル '".to_owned().concat(profile.name.as_str()).concat(
        "' のテスト実行が完了しました。\r\n",
    );
    let ghost head = text@;
    let mut i: usize = 0;
    assert(result.outcomes@.take(0) =~= Seq::<ActionOutcome>::empty());
    assert(head + Seq::<char>::empty() =~= head);
    while i < result.outcomes.len()
        invariant
            i <= result.outcomes@.len(),
            text@ == head + outcome_block(result.outcomes@.take(i as int)),
        decreases result.outcomes@.len() - i,
    {
        let line = "  ".to_owned().concat(result.outcomes[i].text().as_str()).concat("\r\n");
        let ghost before = result.outcomes@.take(i as int);
        assert(result.outcomes@.take(i + 1).drop_last() =~= before);
        text = text.concat(line.as_str());
        assert(head + outcome_block(before) + line@ =~= head + (outcome_block(before) + line@));
        i += 1;
    }
    assert(result.outcomes@.take(i as int) =~= result.outcomes@);
    let ghost body = text@;
    if result.skipped_disabled > 0 {
        let line = "  (".to_owned().concat(
            decimal_text(result.skipped_disabled as u64).as_str(),
        ).concat(" 件の無効アクションをスキップ)\r\n");
        text = text.concat(line.as_str());
    } else {
        assert(body + Seq::<char>::empty() =~= body);
    }
    let sum = decimal_text(result.outcomes.len() as u64).concat(" 件中 ").concat(
        decimal_text(result.failure_count() as u64).as_str(),
    ).concat(" 件失敗");
    text = text.concat(sum.as_str());
    Note { ok: result.is_success(), text }
}

// ---------- shortcuts ----------

/// Menu item ids of the shortcut popup.
pub const ID_SC_DESKTOP: i32 = 1;

pub const ID_SC_STARTMENU: i32 = 2;

pub const ID_SC_BOTH: i32 = 3;

/// The location that an item of the shortcut popup stands for.
pub open spec fn menu_location_of(command: i32) -> Option<args::ShortcutLocation> {
    if command == ID_SC_DESKTOP {
        Some(args::ShortcutLocation::Desktop)
    } else if command == ID_SC_STARTMENU {
        Some(args::ShortcutLocation::StartMenu)
    } else if command == ID_SC_BOTH {
        Some(args::ShortcutLocation::Both)
    } else {
        None
    }
}

/// The location of an item of the shortcut popup.
pub fn menu_location(command: i32) -> (r: Option<args::ShortcutLocation>)
    ensures
        r == menu_location_of(command),
{
    match command {
        ID_SC_DESKTOP => Some(args::ShortcutLocation::Desktop),
        ID_SC_STARTMENU => Some(args::ShortcutLocation::StartMenu),
        ID_SC_BOTH => Some(args::ShortcutLocation::Both),
        _ => None,
    }
}

/// The line on one shortcut.
pub open spec fn made_line(made: Result<String, ShortcutError>) -> Seq<char> {
    match made {
        Ok(path) => "作成: "@ + path@ + "\r\n"@,
        Err(e) => "失敗: "@ + shortcut_error_text(e) + "\r\n"@,
    }
}

pub open spec fn made_block(made: Seq<Result<String, ShortcutError>>) -> Seq<char>
    decreases made.len(),
{
    if made.len() == 0 {
        Seq::empty()
    } else {
        made_block(made.drop_last()) + made_line(made.last())
    }
}

/// What is shown after shortcuts were created: a failure when one failed.
pub fn shortcut_note(made: &Vec<Result<String, ShortcutError>>) -> (r: Note)
    ensures
        r.ok == all_created(made@),
        r.text@ == made_block(made@),
{
    let mut text = String::new();
    let mut ok = true;
    let mut i: usize = 0;
    assert(made@.take(0) =~= Seq::<Result<String, ShortcutError>>::empty());
    while i < made.len()
        invariant
            i <= made@.len(),
            ok == (forall|j: int| 0 <= j < i ==> (#[trigger] made@[j]) is Ok),
            text@ == made_block(made@.take(i as int)),
        decreases made@.len() - i,
    {
        let line = match &made[i] {
            Ok(path) => "作成: ".to_owned().concat(path.as_str()).concat("\r\n"),
            Err(e) => {
                ok = false;
                assert(made@[i as int] is Err);
                "失敗: ".to_owned().concat(e.message().as_str()).concat("\r\n")
            },
        };
        assert(made@.take(i + 1).drop_last() =~= made@.take(i as int));
        text = text.concat(line.as_str());
        i += 1;
    }
    assert(made@.take(i as int) =~= made@);
    Note { ok, text }
}

/// What follows a change of the autostart box to `checked`: nothing, or the
/// text to show and what the box goes back to, which is the actual state.
pub fn autostart_changed(checked: bool, outcome: Result<(), AutostartError>) -> (r: Option<
    (String, bool),
>)
    ensures
        match outcome {
            Ok(()) => r is None,
            Err(e) => r matches Some((text, back)) && back == !checked && text@
                == "自動開始の設定に失敗しました: "@ + autostart_error_text(e),
        },
{
    match outcome {
        Ok(()) => None,
        Err(e) => Some(
            (
                "自動開始の設定に失敗しました: ".to_owned().concat(e.message().as_str()),
                !checked,
            ),
        ),
    }
}

// ---------- laws ----------

/// Adding a valid profile that no GUID of the config names already leaves a
/// valid config valid.
pub proof fn adding_a_profile_keeps_valid(config: ConfigView, profile: ProfileView)
    requires
        valid_config(config),
        valid_profile(profile),
        !is_named(config.profiles, profile.id),
    ensures
        valid_config(
            ConfigView { version: config.version, profiles: config.profiles.push(profile) },
        ),
{
    let after = config.profiles.push(profile);
    assert forall|i: int, j: int| 0 <= i < j < after.len() implies guid_key_of(
        (#[trigger] after[i]).id,
    ) != guid_key_of((#[trigger] after[j]).id) by {
        assert(after[i] == config.profiles[i]);
        if j < config.profiles.len() {
            assert(after[j] == config.profiles[j]);
        }
    }
}

/// Replacing a profile of a valid config by a valid one with the same id,
/// which is all that the profile editor gives back, leaves it valid.
pub proof fn editing_a_profile_keeps_valid(config: ConfigView, index: int, profile: ProfileView)
    requires
        valid_config(config),
        0 <= index < config.profiles.len(),
        valid_profile(profile),
        profile.id == config.profiles[index].id,
    ensures
        valid_config(
            ConfigView {
                version: config.version,
                profiles: config.profiles.update(index, profile),
            },
        ),
{
    let after = config.profiles.update(index, profile);
    assert forall|i: int| 0 <= i < after.len() implies valid_profile(#[trigger] after[i]) by {
        if i != index {
            assert(after[i] == config.profiles[i]);
        }
    }
    assert forall|i: int, j: int| 0 <= i < j < after.len() implies guid_key_of(
        (#[trigger] after[i]).id,
    ) != guid_key_of((#[trigger] after[j]).id) by {
        assert(after[i].id == config.profiles[i].id);
        assert(after[j].id == config.profiles[j].id);
    }
}

/// Removing a profile of a valid config leaves it valid.
pub proof fn deleting_a_profile_keeps_valid(config: ConfigView, index: int)
    requires
        valid_config(config),
        0 <= index < config.profiles.len(),
    ensures
        valid_config(
            ConfigView { version: config.version, profiles: config.profiles.remove(index) },
        ),
{
    let after = config.profiles.remove(index);
    assert forall|i: int| 0 <= i < after.len() implies valid_profile(#[trigger] after[i]) by {
        if i < index {
            assert(after[i] == config.profiles[i]);
        } else {
            assert(after[i] == config.profiles[i + 1]);
        }
    }
    assert forall|i: int, j: int| 0 <= i < j < after.len() implies guid_key_of(
        (#[trigger] after[i]).id,
    ) != guid_key_of((#[trigger] after[j]).id) by {
        let a = if i < index {
            i
        } else {
            i + 1
        };
        let b = if j < index {
            j
        } else {
            j + 1
        };
        assert(after[i] == config.profiles[a]);
        assert(after[j] == config.profiles[b]);
    }
}

} // verus!
