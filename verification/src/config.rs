//! Config model.
//!
//! The config file lives at `%LOCALAPPDATA%\ProjectLauncher\config.json`.
//! Profiles are referenced by a stable GUID, never by name.

use crate::text::{chars_of, hex, is_hex, slice_of, string_of, to_upper, upper, upper_chars};
use vstd::prelude::*;

verus! {

pub const CURRENT_CONFIG_VERSION: u32 = 1;

/// Upper bound for Wait actions (24h). Anything larger is almost certainly a
/// misconfiguration, so it is rejected at validation time.
pub const MAX_WAIT_MS: u64 = 86_400_000;

/// Upper bound for the config file size (1 MiB). The file is meant to be
/// hand-edited JSON of a few KB at most; the cap keeps a stray huge file at
/// the config path from being read whole.
pub const MAX_CONFIG_BYTES: u64 = 1_048_576;

// ---------- data ----------

#[derive(Debug)]
pub struct Config {
    pub version: u32,
    pub profiles: Vec<Profile>,
}

#[derive(Debug)]
pub struct Profile {
    /// Stable GUID that identifies this profile (braced or bare form).
    pub id: String,
    pub name: String,
    pub actions: Vec<Action>,
}

#[derive(Debug)]
pub struct Action {
    /// Stable ID that identifies this action inside the profile.
    pub id: String,
    pub disabled: bool,
    pub kind: ActionKind,
}

#[derive(Debug)]
pub enum ActionKind {
    /// Launches an executable. `arguments` is appended to the command line
    /// verbatim; quoting it is the user's responsibility.
    Application { path: String, arguments: String, working_directory: Option<String> },
    /// Opens a folder through the Windows Shell association.
    Folder { path: String },
    /// Opens a file through the Windows Shell association.
    File { path: String },
    /// Opens a URL through the Windows Shell association.
    Url { url: String },
    /// Runs a user-supplied command string through the selected shell.
    /// The command is appended verbatim after `/C` / `-Command`; quoting is
    /// the user's responsibility.
    Command { shell: CommandShell, command: String },
    /// Sleeps for the given number of milliseconds.
    Wait { milliseconds: u64 },
}

/// Shells supported by the Command action.
#[derive(Debug, Clone, Copy, PartialEq, Eq, Structural)]
pub enum CommandShell {
    Cmd,
    PowerShell,
}

// ---------- model of the data ----------

/// A config as its values: texts are character sequences, lists are
/// sequences.
pub struct ConfigView {
    pub version: u32,
    pub profiles: Seq<ProfileView>,
}

pub struct ProfileView {
    pub id: Seq<char>,
    pub name: Seq<char>,
    pub actions: Seq<ActionView>,
}

pub struct ActionView {
    pub id: Seq<char>,
    pub disabled: bool,
    pub kind: KindView,
}

pub enum KindView {
    Application { path: Seq<char>, arguments: Seq<char>, working_directory: Option<Seq<char>> },
    Folder { path: Seq<char> },
    File { path: Seq<char> },
    Url { url: Seq<char> },
    Command { shell: CommandShell, command: Seq<char> },
    Wait { milliseconds: u64 },
}

/// The characters of an optional text.
pub open spec fn optional_text(s: Option<String>) -> Option<Seq<char>> {
    match s {
        Some(t) => Some(t@),
        None => None,
    }
}

impl View for ActionKind {
    type V = KindView;

    open spec fn view(&self) -> KindView {
        match *self {
            ActionKind::Application { path, arguments, working_directory } => {
                KindView::Application {
                    path: path@,
                    arguments: arguments@,
                    working_directory: optional_text(working_directory),
                }
            },
            ActionKind::Folder { path } => KindView::Folder { path: path@ },
            ActionKind::File { path } => KindView::File { path: path@ },
            ActionKind::Url { url } => KindView::Url { url: url@ },
            ActionKind::Command { shell, command } => KindView::Command { shell, command: command@ },
            ActionKind::Wait { milliseconds } => KindView::Wait { milliseconds },
        }
    }
}

impl View for Action {
    type V = ActionView;

    open spec fn view(&self) -> ActionView {
        ActionView { id: self.id@, disabled: self.disabled, kind: self.kind@ }
    }
}

/// The actions of a list, in order.
pub open spec fn action_views(actions: Seq<Action>) -> Seq<ActionView> {
    actions.map_values(|a: Action| a@)
}

impl View for Profile {
    type V = ProfileView;

    open spec fn view(&self) -> ProfileView {
        ProfileView { id: self.id@, name: self.name@, actions: action_views(self.actions@) }
    }
}

/// The profiles of a list, in order.
pub open spec fn profile_views(profiles: Seq<Profile>) -> Seq<ProfileView> {
    profiles.map_values(|p: Profile| p@)
}

impl View for Config {
    type V = ConfigView;

    open spec fn view(&self) -> ConfigView {
        ConfigView { version: self.version, profiles: profile_views(self.profiles@) }
    }
}

// ---------- copies ----------

impl Clone for ActionKind {
    fn clone(&self) -> (r: Self)
        ensures
            r@ == self@,
    {
        match self {
            ActionKind::Application { path, arguments, working_directory } => {
                ActionKind::Application {
                    path: path.clone(),
                    arguments: arguments.clone(),
                    working_directory: match working_directory {
                        Some(dir) => Some(dir.clone()),
                        None => None,
                    },
                }
            },
            ActionKind::Folder { path } => ActionKind::Folder { path: path.clone() },
            ActionKind::File { path } => ActionKind::File { path: path.clone() },
            ActionKind::Url { url } => ActionKind::Url { url: url.clone() },
            ActionKind::Command { shell, command } => ActionKind::Command {
                shell: *shell,
                command: command.clone(),
            },
            ActionKind::Wait { milliseconds } => ActionKind::Wait { milliseconds: *milliseconds },
        }
    }
}

impl Clone for Action {
    fn clone(&self) -> (r: Self)
        ensures
            r@ == self@,
    {
        Action { id: self.id.clone(), disabled: self.disabled, kind: self.kind.clone() }
    }
}

impl Clone for Profile {
    fn clone(&self) -> (r: Self)
        ensures
            r@ == self@,
    {
        let mut actions: Vec<Action> = Vec::new();
        let mut i: usize = 0;
        while i < self.actions.len()
            invariant
                i <= self.actions@.len(),
                action_views(actions@) == action_views(self.actions@).take(i as int),
            decreases self.actions@.len() - i,
        {
            let copy = self.actions[i].clone();
            let ghost before = actions@;
            actions.push(copy);
            assert(action_views(actions@) =~= action_views(before).push(copy@));
            assert(action_views(self.actions@).take(i + 1) =~= action_views(self.actions@).take(
                i as int,
            ).push(copy@));
            i += 1;
        }
        assert(action_views(actions@) =~= action_views(self.actions@));
        Profile { id: self.id.clone(), name: self.name.clone(), actions }
    }
}

impl Clone for Config {
    fn clone(&self) -> (r: Self)
        ensures
            r@ == self@,
    {
        let mut profiles: Vec<Profile> = Vec::new();
        let mut i: usize = 0;
        while i < self.profiles.len()
            invariant
                i <= self.profiles@.len(),
                profile_views(profiles@) == profile_views(self.profiles@).take(i as int),
            decreases self.profiles@.len() - i,
        {
            let copy = self.profiles[i].clone();
            let ghost before = profiles@;
            profiles.push(copy);
            assert(profile_views(profiles@) =~= profile_views(before).push(copy@));
            assert(profile_views(self.profiles@).take(i + 1) =~= profile_views(self.profiles@).take(
                i as int,
            ).push(copy@));
            i += 1;
        }
        assert(profile_views(profiles@) =~= profile_views(self.profiles@));
        Config { version: self.version, profiles }
    }
}

// ---------- shells ----------

/// Path of a shell executable below the Windows system directory.
pub open spec fn shell_exe(shell: CommandShell) -> Seq<char> {
    match shell {
        CommandShell::Cmd => "cmd.exe"@,
        CommandShell::PowerShell => "WindowsPowerShell\\v1.0\\powershell.exe"@,
    }
}

/// What precedes the user's command on a shell's command line.
pub open spec fn shell_prefix(shell: CommandShell) -> Seq<char> {
    match shell {
        CommandShell::Cmd => "/C "@,
        CommandShell::PowerShell => "-NoProfile -Command "@,
    }
}

impl CommandShell {
    /// Path of the shell executable relative to the Windows system
    /// directory. Resolving it against the system directory rather than
    /// relying on PATH/CWD prevents a planted `cmd.exe` from being run.
    pub fn system_relative_exe(self) -> (r: &'static str)
        ensures
            r@ == shell_exe(self),
    {
        match self {
            CommandShell::Cmd => "cmd.exe",
            CommandShell::PowerShell => "WindowsPowerShell\\v1.0\\powershell.exe",
        }
    }

    /// Arguments that precede the user's command string, including the
    /// trailing space.
    pub fn command_line_prefix(self) -> (r: &'static str)
        ensures
            r@ == shell_prefix(self),
    {
        match self {
            CommandShell::Cmd => "/C ",
            CommandShell::PowerShell => "-NoProfile -Command ",
        }
    }
}

// ---------- GUIDs ----------

/// The text without one surrounding brace pair, when both braces are there.
pub open spec fn unbraced(s: Seq<char>) -> Seq<char> {
    if s.len() >= 2 && s[0] == '{' && s.last() == '}' {
        s.subrange(1, s.len() - 1)
    } else {
        s
    }
}

/// What two GUID texts have in common when they name the same profile.
pub open spec fn guid_key_of(s: Seq<char>) -> Seq<char> {
    upper(unbraced(s))
}

/// The positions of the hyphens in a GUID.
pub open spec fn is_guid_hyphen(i: int) -> bool {
    i == 8 || i == 13 || i == 18 || i == 23
}

/// `XXXXXXXX-XXXX-XXXX-XXXX-XXXXXXXXXXXX` in hexadecimal digits of either
/// case.
pub open spec fn is_bare_guid(s: Seq<char>) -> bool {
    s.len() == 36 && forall|i: int|
        0 <= i < 36 ==> if is_guid_hyphen(i) {
            #[trigger] s[i] == '-'
        } else {
            is_hex(s[i])
        }
}

/// A GUID, with or without one pair of surrounding braces.
pub open spec fn is_guid(s: Seq<char>) -> bool {
    is_bare_guid(unbraced(s))
}

/// Normalizes a GUID for comparison by removing one surrounding brace pair,
/// only when both braces are present, and upper-casing. Shared by
/// `is_valid_guid`, the duplicate check in `Config::validate` and
/// `profile::find_profile` so all three agree on which strings name the
/// same profile.
pub fn guid_key(s: &str) -> (r: String)
    ensures
        r@ == guid_key_of(s@),
{
    let v = chars_of(s);
    let n: usize = v.len();
    if n >= 2 && v[0] == '{' && v[n - 1] == '}' {
        string_of(&upper_chars(&slice_of(&v, 1, n - 1)))
    } else {
        string_of(&upper_chars(&v))
    }
}

/// Returns true for `XXXXXXXX-XXXX-XXXX-XXXX-XXXXXXXXXXXX`, with or without
/// one pair of surrounding braces. Mismatched braces can never pass: a
/// brace kept by `guid_key` is neither a hex digit nor a `-` separator.
pub fn is_valid_guid(s: &str) -> (r: bool)
    ensures
        r == is_guid(s@),
{
    let v = chars_of(guid_key(s).as_str());
    let ghost bare = unbraced(s@);
    if v.len() != 36 {
        return false;
    }
    let mut i: usize = 0;
    while i < 36
        invariant
            i <= 36,
            v@.len() == 36,
            v@ == upper(bare),
            bare.len() == 36,
            bare == unbraced(s@),
            forall|j: int|
                0 <= j < i ==> if is_guid_hyphen(j) {
                    #[trigger] bare[j] == '-'
                } else {
                    is_hex(bare[j])
                },
        decreases 36 - i,
    {
        let separator: bool = i == 8 || i == 13 || i == 18 || i == 23;
        assert(v@[i as int] == to_upper(bare[i as int]));
        if separator != (v[i] == '-') {
            return false;
        }
        if !separator && !hex(v[i]) {
            return false;
        }
        i += 1;
    }
    true
}

} // verus!
