//! Launch mode and command-line argument parsing.
//!
//! Supported forms:
//!   ProjectLauncher.exe                        -> GUI
//!   ProjectLauncher.exe --resident             -> Resident
//!   ProjectLauncher.exe --settings             -> same GUI
//!   ProjectLauncher.exe --profile <GUID>       -> run one profile and exit
//!   ProjectLauncher.exe --shortcut <GUID> [loc]-> create a .lnk

use crate::config::{is_guid, is_valid_guid, optional_text};
use crate::text::{chars_of, debug_string, debug_text, same_text, slice_of, string_of};
use vstd::prelude::*;
use vstd::string::*;

verus! {

#[derive(Debug, PartialEq, Eq)]
pub enum Mode {
    Gui,
    Resident,
    Settings,
    Profile(String),
    Shortcut { id: String, location: ShortcutLocation },
}

/// Where `--shortcut` writes the .lnk file.
#[derive(Debug, Clone, Copy, PartialEq, Eq, Structural)]
pub enum ShortcutLocation {
    Desktop,
    StartMenu,
    Both,
}

/// A mode, with ids as texts.
pub enum ModeView {
    Gui,
    Resident,
    Settings,
    Profile(Seq<char>),
    Shortcut { id: Seq<char>, location: ShortcutLocation },
}

impl View for Mode {
    type V = ModeView;

    open spec fn view(&self) -> ModeView {
        match self {
            Mode::Gui => ModeView::Gui,
            Mode::Resident => ModeView::Resident,
            Mode::Settings => ModeView::Settings,
            Mode::Profile(id) => ModeView::Profile(id@),
            Mode::Shortcut { id, location } => ModeView::Shortcut {
                id: id@,
                location: *location,
            },
        }
    }
}

#[derive(Debug)]
pub struct ArgsError {
    pub message: String,
}

pub const USAGE: &'static str = "Usage:
  ProjectLauncher.exe                                open the profile manager window
  ProjectLauncher.exe --resident                     start the resident process
  ProjectLauncher.exe --settings                     open the profile manager window
  ProjectLauncher.exe --profile <GUID>               run a profile (via the resident when running)
  ProjectLauncher.exe --shortcut <GUID> [location]   create a profile shortcut
                                                     location: desktop (default) | startmenu | both";

impl ArgsError {
    /// The message, followed by the usage.
    pub fn text(&self) -> (r: String)
        ensures
            r@ == self.message@ + "\n\n"@ + USAGE@,
    {
        self.message.clone().concat("\n\n").concat(USAGE)
    }
}

// ---------- model ----------

/// The arguments as texts; `None` is one that is not valid Unicode.
pub open spec fn arg_views(args: Seq<Option<String>>) -> Seq<Option<Seq<char>>> {
    Seq::new(args.len(), |i: int| optional_text(args[i]))
}

/// What is left of a text behind a prefix.
pub open spec fn behind(s: Seq<char>, prefix: Seq<char>) -> Option<Seq<char>> {
    if s.len() >= prefix.len() && s.take(prefix.len() as int) == prefix {
        Some(s.skip(prefix.len() as int))
    } else {
        None
    }
}

/// The id given to a flag, which must be a GUID.
pub open spec fn guid_value(flag: Seq<char>, value: Seq<char>) -> Result<Seq<char>, Seq<char>> {
    if is_guid(value) {
        Ok(value)
    } else {
        Err(
            flag + " expects a GUID like {XXXXXXXX-XXXX-XXXX-XXXX-XXXXXXXXXXXX}, got "@
                + debug_text(value),
        )
    }
}

/// The id that follows a flag.
pub open spec fn following_guid(args: Seq<Option<Seq<char>>>, flag: Seq<char>, i: int) -> Result<
    Seq<char>,
    Seq<char>,
> {
    if i < args.len() {
        match args[i] {
            Some(value) => guid_value(flag, value),
            None => Err(flag + " requires a GUID value"@),
        }
    } else {
        Err(flag + " requires a GUID value"@)
    }
}

/// The location that a word names.
pub open spec fn location_word(word: Seq<char>) -> Option<ShortcutLocation> {
    if word == "desktop"@ {
        Some(ShortcutLocation::Desktop)
    } else if word == "startmenu"@ {
        Some(ShortcutLocation::StartMenu)
    } else if word == "both"@ {
        Some(ShortcutLocation::Both)
    } else {
        None
    }
}

/// The location word at `i`, if there is one.
pub open spec fn location_at(args: Seq<Option<Seq<char>>>, i: int) -> Option<ShortcutLocation> {
    if i < args.len() && args[i] is Some {
        location_word(args[i]->0)
    } else {
        None
    }
}

/// A `--shortcut` mode whose arguments up to `i` are read: a location word
/// there is part of it, anything else is left.
pub open spec fn shortcut_mode(args: Seq<Option<Seq<char>>>, id: Seq<char>, i: int) -> (
    ModeView,
    int,
) {
    match location_at(args, i) {
        Some(location) => (ModeView::Shortcut { id, location }, i + 1),
        None => (ModeView::Shortcut { id, location: ShortcutLocation::Desktop }, i),
    }
}

/// The mode that the arguments from `i` on start with, and the index behind
/// it; or the message of the error.
pub open spec fn mode_at(args: Seq<Option<Seq<char>>>, i: int) -> Result<
    (ModeView, int),
    Seq<char>,
> {
    match args[i] {
        None => Err("argument is not valid Unicode"@),
        Some(arg) => {
            if arg == "--resident"@ {
                Ok((ModeView::Resident, i + 1))
            } else if arg == "--settings"@ {
                Ok((ModeView::Settings, i + 1))
            } else if arg == "--profile"@ {
                match following_guid(args, "--profile"@, i + 1) {
                    Ok(id) => Ok((ModeView::Profile(id), i + 2)),
                    Err(m) => Err(m),
                }
            } else if behind(arg, "--profile="@) is Some {
                match guid_value("--profile"@, behind(arg, "--profile="@)->0) {
                    Ok(id) => Ok((ModeView::Profile(id), i + 1)),
                    Err(m) => Err(m),
                }
            } else if arg == "--shortcut"@ {
                match following_guid(args, "--shortcut"@, i + 1) {
                    Ok(id) => Ok(shortcut_mode(args, id, i + 2)),
                    Err(m) => Err(m),
                }
            } else if behind(arg, "--shortcut="@) is Some {
                match guid_value("--shortcut"@, behind(arg, "--shortcut="@)->0) {
                    Ok(id) => Ok(shortcut_mode(args, id, i + 1)),
                    Err(m) => Err(m),
                }
            } else {
                Err("unknown argument "@ + debug_text(arg))
            }
        },
    }
}

/// The mode that a command line selects: at most one may be given. A second
/// one is read before it is refused, so its own errors come first.
pub open spec fn selected(args: Seq<Option<Seq<char>>>) -> Result<ModeView, Seq<char>> {
    if args.len() == 0 {
        Ok(ModeView::Gui)
    } else {
        match mode_at(args, 0) {
            Err(m) => Err(m),
            Ok((mode, next)) => {
                if next >= args.len() {
                    Ok(mode)
                } else {
                    match mode_at(args, next) {
                        Err(m) => Err(m),
                        Ok(_) => Err("only one mode may be given"@),
                    }
                }
            },
        }
    }
}

// ---------- parsing ----------

fn err(message: String) -> (r: ArgsError)
    ensures
        r.message == message,
{
    ArgsError { message }
}

fn behind_prefix(s: &str, prefix: &str) -> (r: Option<String>)
    ensures
        optional_text(r) == behind(s@, prefix@),
{
    let v = chars_of(s);
    let p = chars_of(prefix);
    let n: usize = p.len();
    if v.len() < n {
        return None;
    }
    let mut i: usize = 0;
    while i < n
        invariant
            v@ == s@,
            p@ == prefix@,
            n == p@.len(),
            n <= v@.len(),
            i <= n,
            forall|j: int| 0 <= j < i ==> v@[j] == p@[j],
        decreases n - i,
    {
        if v[i] != p[i] {
            assert(s@.take(n as int)[i as int] != prefix@[i as int]);
            return None;
        }
        i += 1;
    }
    assert(s@.take(n as int) =~= prefix@);
    assert(s@.skip(n as int) =~= s@.subrange(n as int, s@.len() as int));
    Some(string_of(&slice_of(&v, n, v.len())))
}

fn validate_guid(flag: &str, value: &str) -> (r: Result<String, ArgsError>)
    ensures
        match r {
            Ok(id) => guid_value(flag@, value@) == Ok::<Seq<char>, Seq<char>>(id@),
            Err(e) => guid_value(flag@, value@) == Err::<Seq<char>, Seq<char>>(e.message@),
        },
{
    if is_valid_guid(value) {
        Ok(value.to_owned())
    } else {
        Err(
            err(
                flag.to_owned().concat(
                    " expects a GUID like {XXXXXXXX-XXXX-XXXX-XXXX-XXXXXXXXXXXX}, got ",
                ).concat(debug_string(value).as_str()),
            ),
        )
    }
}

fn take_value(args: &[Option<String>], i: usize, flag: &str) -> (r: Result<String, ArgsError>)
    ensures
        match r {
            Ok(id) => following_guid(arg_views(args@), flag@, i as int) == Ok::<
                Seq<char>,
                Seq<char>,
            >(id@),
            Err(e) => following_guid(arg_views(args@), flag@, i as int) == Err::<
                Seq<char>,
                Seq<char>,
            >(e.message@),
        },
{
    if i < args.len() {
        if let Some(value) = &args[i] {
            return validate_guid(flag, value.as_str());
        }
    }
    Err(err(flag.to_owned().concat(" requires a GUID value")))
}

/// The optional `--shortcut` location word. Only a known value is one;
/// anything else stays so e.g. `--shortcut G --resident` still reports "only
/// one mode" instead of swallowing the flag.
fn take_location(args: &[Option<String>], i: usize) -> (r: Option<ShortcutLocation>)
    ensures
        r == location_at(arg_views(args@), i as int),
{
    if i < args.len() {
        if let Some(word) = &args[i] {
            if same_text(word.as_str(), "desktop") {
                return Some(ShortcutLocation::Desktop);
            }
            if same_text(word.as_str(), "startmenu") {
                return Some(ShortcutLocation::StartMenu);
            }
            if same_text(word.as_str(), "both") {
                return Some(ShortcutLocation::Both);
            }
        }
    }
    None
}

/// Whether a reading of one mode is the modelled one.
spec fn reads(r: Result<(Mode, usize), ArgsError>, expected: Result<(ModeView, int), Seq<char>>) -> bool {
    match r {
        Ok((mode, next)) => expected == Ok::<(ModeView, int), Seq<char>>((mode@, next as int)),
        Err(e) => expected == Err::<(ModeView, int), Seq<char>>(e.message@),
    }
}

fn shortcut_with_location(args: &[Option<String>], id: String, i: usize) -> (r: (Mode, usize))
    requires
        i <= args@.len(),
    ensures
        (r.0@, r.1 as int) == shortcut_mode(arg_views(args@), id@, i as int),
        r.1 <= args@.len(),
{
    if i < args.len() {
        if let Some(location) = take_location(args, i) {
            return (Mode::Shortcut { id, location }, i + 1);
        }
    }
    (Mode::Shortcut { id, location: ShortcutLocation::Desktop }, i)
}

fn parse_mode(args: &[Option<String>], i: usize) -> (r: Result<(Mode, usize), ArgsError>)
    requires
        i < args@.len(),
    ensures
        reads(r, mode_at(arg_views(args@), i as int)),
        r matches Ok((_, next)) ==> i < next <= args@.len(),
{
    let arg = match &args[i] {
        Some(arg) => arg.as_str(),
        None => return Err(err("argument is not valid Unicode".to_owned())),
    };
    if same_text(arg, "--resident") {
        return Ok((Mode::Resident, i + 1));
    }
    if same_text(arg, "--settings") {
        return Ok((Mode::Settings, i + 1));
    }
    if same_text(arg, "--profile") {
        return match take_value(args, i + 1, "--profile") {
            Ok(id) => Ok((Mode::Profile(id), i + 2)),
            Err(e) => Err(e),
        };
    }
    if let Some(value) = behind_prefix(arg, "--profile=") {
        return match validate_guid("--profile", value.as_str()) {
            Ok(id) => Ok((Mode::Profile(id), i + 1)),
            Err(e) => Err(e),
        };
    }
    if same_text(arg, "--shortcut") {
        return match take_value(args, i + 1, "--shortcut") {
            Ok(id) => Ok(shortcut_with_location(args, id, i + 2)),
            Err(e) => Err(e),
        };
    }
    if let Some(value) = behind_prefix(arg, "--shortcut=") {
        return match validate_guid("--shortcut", value.as_str()) {
            Ok(id) => Ok(shortcut_with_location(args, id, i + 1)),
            Err(e) => Err(e),
        };
    }
    Err(err("unknown argument ".to_owned().concat(debug_string(arg).as_str())))
}

/// Parses argv (excluding argv[0]). Arguments must be valid Unicode; profile
/// GUIDs are ASCII anyway, so an argument that is not (`None`) is rejected
/// rather than silently mangled.
pub fn parse(args: &[Option<String>]) -> (r: Result<Mode, ArgsError>)
    ensures
        match r {
            Ok(mode) => selected(arg_views(args@)) == Ok::<ModeView, Seq<char>>(mode@),
            Err(e) => selected(arg_views(args@)) == Err::<ModeView, Seq<char>>(e.message@),
        },
{
    if args.len() == 0 {
        return Ok(Mode::Gui);
    }
    match parse_mode(args, 0) {
        Err(e) => Err(e),
        Ok((mode, next)) => {
            if next >= args.len() {
                return Ok(mode);
            }
            match parse_mode(args, next) {
                Err(e) => Err(e),
                Ok(_) => Err(err("only one mode may be given".to_owned())),
            }
        },
    }
}

// ---------- laws ----------

/// A mode that names a profile names it by a GUID.
pub proof fn selected_ids_are_guids(args: Seq<Option<Seq<char>>>)
    ensures
        selected(args) matches Ok(ModeView::Profile(id)) ==> is_guid(id),
        selected(args) matches Ok(ModeView::Shortcut { id, .. }) ==> is_guid(id),
{
}

/// Every profile can be addressed in either form, and the two forms select
/// the same thing; a location word, and only one, may follow `--shortcut`.
pub proof fn both_forms_select(id: Seq<char>, word: Seq<char>)
    requires
        is_guid(id),
    ensures
        selected(seq![Some("--profile"@), Some(id)]) == Ok::<ModeView, Seq<char>>(
            ModeView::Profile(id),
        ),
        selected(seq![Some("--profile="@ + id)]) == Ok::<ModeView, Seq<char>>(
            ModeView::Profile(id),
        ),
        ({
            let plain = Ok::<ModeView, Seq<char>>(
                ModeView::Shortcut { id, location: ShortcutLocation::Desktop },
            );
            &&& selected(seq![Some("--shortcut"@), Some(id)]) == plain
            &&& selected(seq![Some("--shortcut="@ + id)]) == plain
        }),
        location_word(word) matches Some(location) ==> {
            let placed = Ok::<ModeView, Seq<char>>(ModeView::Shortcut { id, location });
            &&& selected(seq![Some("--shortcut"@), Some(id), Some(word)]) == placed
            &&& selected(seq![Some("--shortcut="@ + id), Some(word)]) == placed
        },
        location_word(word) is None ==> {
            &&& selected(seq![Some("--shortcut"@), Some(id), Some(word)]) is Err
            &&& selected(seq![Some("--shortcut="@ + id), Some(word)]) is Err
        },
{
    reveal_strlit("--resident");
    reveal_strlit("--settings");
    reveal_strlit("--profile");
    reveal_strlit("--profile=");
    reveal_strlit("--shortcut");
    reveal_strlit("--shortcut=");
    let p = "--profile="@ + id;
    let s = "--shortcut="@ + id;
    assert(p.take(10) =~= "--profile="@);
    assert(p.skip(10) =~= id);
    assert(s.take(11) =~= "--shortcut="@);
    assert(s.skip(11) =~= id);
    assert(s[2] == 's' && s.take(10)[2] == 's');
    assert("--shortcut"@[2] == 's');
    assert(p[9] == '=' && s[10] == '=');
    assert(behind(s, "--profile="@) is None);
    assert("--shortcut"@.take(10)[2] == 's');
    assert(behind("--shortcut"@, "--profile="@) is None);
    let shortcut = "--shortcut"@;
    assert(shortcut != "--resident"@ && shortcut != "--settings"@ && shortcut != "--profile"@) by {
        assert("--resident"@[2] == 'r');
        assert("--settings"@[3] == 'e' && shortcut[3] == 'h');
        assert("--profile"@[2] == 'p');
    }
    assert(s != "--resident"@ && s != "--settings"@ && s != "--profile"@ && s != shortcut) by {
        assert("--settings"@[3] == 'e' && s[3] == 'h');
    }
    let a = seq![Some(shortcut), Some(id)];
    assert(mode_at(a, 0) == Ok::<(ModeView, int), Seq<char>>(shortcut_mode(a, id, 2)));
    let b = seq![Some(s)];
    assert(mode_at(b, 0) == Ok::<(ModeView, int), Seq<char>>(shortcut_mode(b, id, 1)));
    let c = seq![Some(shortcut), Some(id), Some(word)];
    assert(mode_at(c, 0) == Ok::<(ModeView, int), Seq<char>>(shortcut_mode(c, id, 2)));
    let d = seq![Some(s), Some(word)];
    assert(mode_at(d, 0) == Ok::<(ModeView, int), Seq<char>>(shortcut_mode(d, id, 1)));
}

} // verus!
