//! Config validation.
//!
//! The rules are stated twice: as the message of the first broken rule, which
//! is what validation reports, and as the plain conditions on a valid config.
//! `no_error_iff_valid` ties the two together.

use crate::config::{
    action_views, guid_key, guid_key_of, is_guid, is_valid_guid, profile_views, Action, ActionKind,
    ActionView, Config, ConfigView, KindView, ProfileView, CURRENT_CONFIG_VERSION, MAX_WAIT_MS,
};
use crate::number::{decimal, decimal_text};
use crate::text::{
    alpha, chars_of, debug_string, debug_text, digit, ends_with, ends_with_char, has_char, is_alpha,
    is_blank, is_digit, trim_chars, trim_empty_iff_blank,
};
use vstd::hash_set::StringHashSet;
use vstd::prelude::*;
use vstd::string::*;

verus! {

// ---------- rules on single texts ----------

/// A URI scheme of RFC 3986: `ALPHA *( ALPHA / DIGIT / "+" / "-" / "." )`.
pub open spec fn is_scheme(s: Seq<char>) -> bool {
    forall|i: int|
        0 <= i < s.len() ==> {
            ||| is_alpha(#[trigger] s[i])
            ||| i > 0 && (is_digit(s[i]) || s[i] == '+' || s[i] == '-' || s[i] == '.')
        }
}

/// A text that starts with a URI scheme of two characters or more and a
/// colon.
pub open spec fn has_scheme(s: Seq<char>) -> bool {
    exists|i: int| 2 <= i < s.len() && #[trigger] s[i] == ':' && is_scheme(s.take(i))
}

/// `X:\...` or `X:/...` with an ASCII drive letter, or `\\...`.
pub open spec fn is_absolute(s: Seq<char>) -> bool {
    ||| s.len() >= 2 && s[0] == '\\' && s[1] == '\\'
    ||| s.len() >= 3 && is_alpha(s[0]) && s[1] == ':' && (s[2] == '\\' || s[2] == '/')
}

/// True when `url` starts with a real URI scheme per RFC 3986
/// (`ALPHA *( ALPHA / DIGIT / "+" / "-" / "." )`).
///
/// Single-letter schemes are rejected on purpose: `C:\dir` would otherwise
/// look like scheme `C`, so a local path pasted into a URL action would be
/// handed to the shell as a protocol. Such paths belong in a `file`/`folder`
/// action instead.
pub fn has_uri_scheme(url: &str) -> (r: bool)
    ensures
        r == has_scheme(url@),
{
    let v = chars_of(url);
    let mut i: usize = 0;
    while i < v.len() && v[i] != ':'
        invariant
            v@ == url@,
            i <= v@.len(),
            is_scheme(v@.take(i as int)),
            forall|j: int| 0 <= j < i ==> v@[j] != ':',
        decreases v@.len() - i,
    {
        let c = v[i];
        if !(alpha(c) || (i > 0 && (digit(c) || c == '+' || c == '-' || c == '.'))) {
            proof {
                if has_scheme(url@) {
                    let k = choose|k: int|
                        2 <= k < v@.len() && #[trigger] v@[k] == ':' && is_scheme(v@.take(k));
                    assert(v@.take(k)[i as int] == c);
                }
            }
            return false;
        }
        i += 1;
    }
    proof {
        if has_scheme(url@) {
            let k = choose|k: int|
                2 <= k < v@.len() && #[trigger] v@[k] == ':' && is_scheme(v@.take(k));
            if i < k {
                assert(v@.take(k)[i as int] == ':');
            }
        }
    }
    i >= 2 && i < v.len()
}

/// True for `X:\...` / `X:/...` with an ASCII drive letter, or a `\\...`
/// UNC path. `C:foo` (drive-relative) and plain relative paths return
/// false on purpose: they would resolve against whatever current
/// directory the launcher happens to have at run time.
pub fn is_absolute_windows_path(path: &str) -> (r: bool)
    ensures
        r == is_absolute(path@),
{
    let v = chars_of(path);
    if v.len() >= 2 && v[0] == '\\' && v[1] == '\\' {
        return true;
    }
    v.len() >= 3 && alpha(v[0]) && v[1] == ':' && (v[2] == '\\' || v[2] == '/')
}

/// What is wrong with a text that must not hold a NUL.
pub open spec fn nul_error(field: Seq<char>, value: Seq<char>) -> Option<Seq<char>> {
    if value.contains('\0') {
        Some(field + " contains an interior NUL byte"@)
    } else {
        None
    }
}

/// A result that reports the given error, or success when there is none.
pub open spec fn reports(r: Result<(), String>, error: Option<Seq<char>>) -> bool {
    match r {
        Ok(()) => error is None,
        Err(m) => error == Some(m@),
    }
}

pub fn validate_no_nul(field: &str, value: &str) -> (r: Result<(), String>)
    ensures
        reports(r, nul_error(field@, value@)),
{
    if has_char(value, '\0') {
        Err(field.to_owned().concat(" contains an interior NUL byte"))
    } else {
        Ok(())
    }
}

// ---------- rules on an action ----------

/// The first of two errors, where there is one.
pub open spec fn or_error(a: Option<Seq<char>>, b: Option<Seq<char>>) -> Option<Seq<char>> {
    if a is Some {
        a
    } else {
        b
    }
}

/// What is wrong with an optional working directory.
pub open spec fn directory_error(dir: Option<Seq<char>>) -> Option<Seq<char>> {
    match dir {
        None => None,
        Some(dir) => if dir.len() == 0 {
            Some("working_directory must not be empty"@)
        } else if !is_absolute(dir) {
            Some(
                "working_directory must be an absolute path (e.g. C:\\dir or \\\\server\\share): "@
                    + debug_text(dir),
            )
        } else {
            nul_error("working_directory"@, dir)
        },
    }
}

/// What is wrong with what an action does: the message of the first rule
/// that is broken.
pub open spec fn kind_error(kind: KindView) -> Option<Seq<char>> {
    match kind {
        KindView::Application { path, arguments, working_directory } => {
            if path.len() == 0 {
                Some("application path must not be empty"@)
            } else if path.contains('"') {
                Some("application path must not contain a quote: "@ + debug_text(path))
            } else if ends_with(path, '\\') || ends_with(path, '/') {
                Some("application path must not end with a path separator: "@ + debug_text(path))
            } else {
                or_error(
                    nul_error("application path"@, path),
                    or_error(
                        nul_error("application arguments"@, arguments),
                        directory_error(working_directory),
                    ),
                )
            }
        },
        KindView::Folder { path } | KindView::File { path } => {
            if path.len() == 0 {
                Some("path must not be empty"@)
            } else {
                nul_error("path"@, path)
            }
        },
        KindView::Url { url } => {
            if url.len() == 0 {
                Some("url must not be empty"@)
            } else if url.contains('\0') {
                nul_error("url"@, url)
            } else if !has_scheme(url) {
                Some("url "@ + debug_text(url) + " has no scheme (e.g. https:)"@)
            } else {
                None
            }
        },
        KindView::Command { shell, command } => {
            if command.len() == 0 {
                Some("command must not be empty"@)
            } else {
                nul_error("command"@, command)
            }
        },
        KindView::Wait { milliseconds } => {
            if milliseconds > MAX_WAIT_MS {
                Some(
                    "wait of "@ + decimal(milliseconds as nat) + "ms exceeds the maximum of "@
                        + decimal(MAX_WAIT_MS as nat) + "ms"@,
                )
            } else {
                None
            }
        },
    }
}

/// What is wrong with an action.
pub open spec fn action_error(action: ActionView) -> Option<Seq<char>> {
    if action.id.len() == 0 {
        Some("action id must not be empty"@)
    } else {
        kind_error(action.kind)
    }
}

fn validate_directory(working_directory: &Option<String>) -> (r: Result<(), String>)
    ensures
        reports(r, directory_error(crate::config::optional_text(*working_directory))),
{
    match working_directory {
        None => Ok(()),
        Some(dir) => {
            if dir.as_str().is_empty() {
                return Err("working_directory must not be empty".to_owned());
            }
            // A relative working directory would be resolved against the
            // launcher's own current directory at run time, which is almost
            // never what the user intended to store.
            if !is_absolute_windows_path(dir.as_str()) {
                return Err(
                    "working_directory must be an absolute path (e.g. C:\\dir or \\\\server\\share): ".to_owned().concat(
                        debug_string(dir.as_str()).as_str(),
                    ),
                );
            }
            validate_no_nul("working_directory", dir.as_str())
        },
    }
}

fn validate_kind(kind: &ActionKind) -> (r: Result<(), String>)
    ensures
        reports(r, kind_error(kind@)),
{
    match kind {
        ActionKind::Application { path, arguments, working_directory } => {
            if path.as_str().is_empty() {
                return Err("application path must not be empty".to_owned());
            }
            // The path is wrapped in double quotes at launch time, so a
            // stored path that breaks that quoting could never run.
            if has_char(path.as_str(), '"') {
                return Err(
                    "application path must not contain a quote: ".to_owned().concat(
                        debug_string(path.as_str()).as_str(),
                    ),
                );
            }
            if ends_with_char(path.as_str(), '\\') || ends_with_char(path.as_str(), '/') {
                return Err(
                    "application path must not end with a path separator: ".to_owned().concat(
                        debug_string(path.as_str()).as_str(),
                    ),
                );
            }
            if let Err(m) = validate_no_nul("application path", path.as_str()) {
                return Err(m);
            }
            if let Err(m) = validate_no_nul("application arguments", arguments.as_str()) {
                return Err(m);
            }
            validate_directory(working_directory)
        },
        ActionKind::Folder { path } | ActionKind::File { path } => {
            if path.as_str().is_empty() {
                return Err("path must not be empty".to_owned());
            }
            validate_no_nul("path", path.as_str())
        },
        ActionKind::Url { url } => {
            if url.as_str().is_empty() {
                return Err("url must not be empty".to_owned());
            }
            if let Err(m) = validate_no_nul("url", url.as_str()) {
                return Err(m);
            }
            if !has_uri_scheme(url.as_str()) {
                return Err(
                    "url ".to_owned().concat(debug_string(url.as_str()).as_str()).concat(
                        " has no scheme (e.g. https:)",
                    ),
                );
            }
            Ok(())
        },
        ActionKind::Command { shell: _, command } => {
            if command.as_str().is_empty() {
                return Err("command must not be empty".to_owned());
            }
            validate_no_nul("command", command.as_str())
        },
        ActionKind::Wait { milliseconds } => {
            if *milliseconds > MAX_WAIT_MS {
                return Err(
                    "wait of ".to_owned().concat(decimal_text(*milliseconds).as_str()).concat(
                        "ms exceeds the maximum of ",
                    ).concat(decimal_text(MAX_WAIT_MS).as_str()).concat("ms"),
                );
            }
            Ok(())
        },
    }
}

/// Validates a single action. Shared by `Config::validate` and the action
/// editor, which needs per-action errors before the whole profile is
/// assembled.
pub fn validate_action(action: &Action) -> (r: Result<(), String>)
    ensures
        reports(r, action_error(action@)),
{
    if action.id.as_str().is_empty() {
        return Err("action id must not be empty".to_owned());
    }
    validate_kind(&action.kind)
}

// ---------- rules on a config ----------

/// The error of the first of `n` checks that reports one.
pub open spec fn first_error(n: nat, check: spec_fn(int) -> Option<Seq<char>>) -> Option<Seq<char>>
    decreases n,
{
    if n == 0 {
        None
    } else {
        or_error(first_error((n - 1) as nat, check), check(n - 1))
    }
}

/// What is wrong with the action at index `k` of a profile.
pub open spec fn action_slot_error(profile: ProfileView, k: int) -> Option<Seq<char>> {
    let action = profile.actions[k];
    match action_error(action) {
        Some(m) => Some("profile "@ + debug_text(profile.id) + ": "@ + m),
        None => if exists|j: int| 0 <= j < k && #[trigger] profile.actions[j].id == action.id {
            Some(
                "profile "@ + debug_text(profile.id) + ": duplicate action id "@ + debug_text(
                    action.id,
                ),
            )
        } else {
            None
        },
    }
}

/// What is wrong with the profile at index `i`, seen after those before it.
pub open spec fn profile_slot_error(profiles: Seq<ProfileView>, i: int) -> Option<Seq<char>> {
    let profile = profiles[i];
    if !is_guid(profile.id) {
        Some("profile id "@ + debug_text(profile.id) + " is not a valid GUID"@)
    } else if exists|j: int|
        0 <= j < i && guid_key_of(#[trigger] profiles[j].id) == guid_key_of(profile.id) {
        Some("duplicate profile id "@ + debug_text(profile.id))
    } else if is_blank(profile.name) {
        Some("profile "@ + debug_text(profile.id) + " has an empty name"@)
    } else {
        first_error(profile.actions.len(), |k: int| action_slot_error(profile, k))
    }
}

/// What is wrong with a config: the message of the first rule that is
/// broken, in document order.
pub open spec fn config_error(config: ConfigView) -> Option<Seq<char>> {
    if config.version != CURRENT_CONFIG_VERSION {
        Some(
            "unsupported config version "@ + decimal(config.version as nat) + " (supported: "@
                + decimal(CURRENT_CONFIG_VERSION as nat) + ")"@,
        )
    } else {
        first_error(config.profiles.len(), |i: int| profile_slot_error(config.profiles, i))
    }
}

fn validate_actions(id: &str, actions: &Vec<Action>, Ghost(profile): Ghost<ProfileView>) -> (r:
    Result<(), String>)
    requires
        profile.id == id@,
        profile.actions == action_views(actions@),
    ensures
        reports(
            r,
            first_error(profile.actions.len(), |k: int| action_slot_error(profile, k)),
        ),
{
    let ghost check = |k: int| action_slot_error(profile, k);
    let mut seen: StringHashSet = StringHashSet::with_capacity(actions.len());
    let mut k: usize = 0;
    while k < actions.len()
        invariant
            k <= actions@.len(),
            profile.id == id@,
            profile.actions == action_views(actions@),
            check == (|k: int| action_slot_error(profile, k)),
            first_error(k as nat, check) is None,
            forall|j: int| 0 <= j < k ==> seen@.contains(#[trigger] profile.actions[j].id),
            forall|id: Seq<char>| #[trigger]
                seen@.contains(id) ==> exists|j: int|
                    0 <= j < k && #[trigger] profile.actions[j].id == id,
        decreases actions@.len() - k,
    {
        let action = &actions[k];
        assert(profile.actions[k as int] == action@);
        proof {
            first_error_stays(profile.actions.len(), check, (k + 1) as nat);
        }
        if let Err(m) = validate_action(action) {
            return Err(
                "profile ".to_owned().concat(debug_string(id).as_str()).concat(": ").concat(
                    m.as_str(),
                ),
            );
        }
        let fresh = seen.insert(action.id.clone());
        if !fresh {
            return Err(
                "profile ".to_owned().concat(debug_string(id).as_str()).concat(
                    ": duplicate action id ",
                ).concat(debug_string(action.id.as_str()).as_str()),
            );
        }
        k += 1;
    }
    Ok(())
}

/// An error that an earlier check reports is the one that all report.
proof fn first_error_stays(n: nat, check: spec_fn(int) -> Option<Seq<char>>, k: nat)
    requires
        k <= n,
    ensures
        first_error(k, check) is Some ==> first_error(n, check) == first_error(k, check),
    decreases n,
{
    if k < n {
        first_error_stays((n - 1) as nat, check, k);
    }
}

impl Config {
    /// Checks every rule on the config and reports the first broken one.
    pub fn validate(&self) -> (r: Result<(), String>)
        ensures
            reports(r, config_error(self@)),
    {
        if self.version != CURRENT_CONFIG_VERSION {
            return Err(
                "unsupported config version ".to_owned().concat(
                    decimal_text(self.version as u64).as_str(),
                ).concat(" (supported: ").concat(
                    decimal_text(CURRENT_CONFIG_VERSION as u64).as_str(),
                ).concat(")"),
            );
        }
        let ghost views = self@.profiles;
        let ghost check = |i: int| profile_slot_error(views, i);
        let mut seen: StringHashSet = StringHashSet::with_capacity(self.profiles.len());
        let mut i: usize = 0;
        while i < self.profiles.len()
            invariant
                i <= self.profiles@.len(),
                views == profile_views(self.profiles@),
                check == (|i: int| profile_slot_error(views, i)),
                first_error(i as nat, check) is None,
                config_error(self@) == first_error(views.len(), check),
                forall|j: int|
                    0 <= j < i ==> seen@.contains(guid_key_of(#[trigger] views[j].id)),
                forall|key: Seq<char>| #[trigger]
                    seen@.contains(key) ==> exists|j: int|
                        0 <= j < i && guid_key_of(#[trigger] views[j].id) == key,
            decreases self.profiles@.len() - i,
        {
            let profile = &self.profiles[i];
            assert(views[i as int] == profile@);
            proof {
                first_error_stays(views.len(), check, (i + 1) as nat);
            }
            if !is_valid_guid(profile.id.as_str()) {
                return Err(
                    "profile id ".to_owned().concat(
                        debug_string(profile.id.as_str()).as_str(),
                    ).concat(" is not a valid GUID"),
                );
            }
            let key = guid_key(profile.id.as_str());
            let fresh = seen.insert(key);
            if !fresh {
                return Err(
                    "duplicate profile id ".to_owned().concat(
                        debug_string(profile.id.as_str()).as_str(),
                    ),
                );
            }
            let trimmed = trim_chars(&chars_of(profile.name.as_str()));
            proof {
                trim_empty_iff_blank(profile.name@);
            }
            if trimmed.len() == 0 {
                return Err(
                    "profile ".to_owned().concat(debug_string(profile.id.as_str()).as_str()).concat(
                        " has an empty name",
                    ),
                );
            }
            if let Err(m) = validate_actions(
                profile.id.as_str(),
                &profile.actions,
                Ghost(profile@),
            ) {
                return Err(m);
            }
            i += 1;
        }
        Ok(())
    }
}

// ---------- the rules as plain conditions ----------

/// What an action may do.
pub open spec fn valid_kind(kind: KindView) -> bool {
    match kind {
        KindView::Application { path, arguments, working_directory } => {
            &&& path.len() > 0
            &&& !path.contains('"')
            &&& !ends_with(path, '\\')
            &&& !ends_with(path, '/')
            &&& !path.contains('\0')
            &&& !arguments.contains('\0')
            &&& working_directory matches Some(dir) ==> is_absolute(dir) && !dir.contains('\0')
        },
        KindView::Folder { path } | KindView::File { path } => path.len() > 0 && !path.contains(
            '\0',
        ),
        KindView::Url { url } => has_scheme(url) && !url.contains('\0'),
        KindView::Command { shell, command } => command.len() > 0 && !command.contains('\0'),
        KindView::Wait { milliseconds } => milliseconds <= MAX_WAIT_MS,
    }
}

pub open spec fn valid_action(action: ActionView) -> bool {
    action.id.len() > 0 && valid_kind(action.kind)
}

/// A profile whose own rules hold: a GUID, a name that is not blank, valid
/// actions, and no action id twice.
pub open spec fn valid_profile(profile: ProfileView) -> bool {
    &&& is_guid(profile.id)
    &&& !is_blank(profile.name)
    &&& forall|k: int|
        0 <= k < profile.actions.len() ==> valid_action(#[trigger] profile.actions[k])
    &&& forall|j: int, k: int|
        0 <= j < k < profile.actions.len() ==> (#[trigger] profile.actions[j]).id != (
        #[trigger] profile.actions[k]).id
}

/// A config that may be stored and run: the supported version, valid
/// profiles, and no two profiles that the same GUID names.
pub open spec fn valid_config(config: ConfigView) -> bool {
    &&& config.version == CURRENT_CONFIG_VERSION
    &&& forall|i: int|
        0 <= i < config.profiles.len() ==> valid_profile(#[trigger] config.profiles[i])
    &&& forall|i: int, j: int|
        0 <= i < j < config.profiles.len() ==> guid_key_of((#[trigger] config.profiles[i]).id)
            != guid_key_of((#[trigger] config.profiles[j]).id)
}

/// Validation finds nothing wrong with an action exactly when the action is
/// valid.
pub proof fn no_action_error_iff_valid(action: ActionView)
    ensures
        action_error(action) is None <==> valid_action(action),
{
    if let KindView::Url { url } = action.kind {
        if has_scheme(url) {
            let i = choose|i: int|
                2 <= i < url.len() && #[trigger] url[i] == ':' && is_scheme(url.take(i));
            assert(url.len() > 0);
        }
    }
}

proof fn first_error_none(n: nat, check: spec_fn(int) -> Option<Seq<char>>)
    ensures
        first_error(n, check) is None <==> forall|i: int|
            0 <= i < n ==> #[trigger] check(i) is None,
    decreases n,
{
    if n > 0 {
        first_error_none((n - 1) as nat, check);
        if first_error(n, check) is None {
            assert forall|i: int| 0 <= i < n implies #[trigger] check(i) is None by {}
        } else if forall|i: int| 0 <= i < n ==> #[trigger] check(i) is None {
            assert(check(n - 1) is None);
            assert(forall|i: int| 0 <= i < n - 1 ==> #[trigger] check(i) is None);
        }
    }
}

proof fn no_profile_error_iff_valid(profiles: Seq<ProfileView>, i: int)
    requires
        0 <= i < profiles.len(),
    ensures
        profile_slot_error(profiles, i) is None <==> {
            &&& valid_profile(profiles[i])
            &&& forall|j: int|
                0 <= j < i ==> guid_key_of(#[trigger] profiles[j].id) != guid_key_of(profiles[i].id)
        },
{
    let profile = profiles[i];
    let check = |k: int| action_slot_error(profile, k);
    first_error_none(profile.actions.len(), check);
    if first_error(profile.actions.len(), check) is None {
        assert forall|k: int| 0 <= k < profile.actions.len() implies valid_action(
            #[trigger] profile.actions[k],
        ) by {
            assert(check(k) is None);
            no_action_error_iff_valid(profile.actions[k]);
        }
        assert forall|j: int, k: int| 0 <= j < k < profile.actions.len() implies (
        #[trigger] profile.actions[j]).id != (#[trigger] profile.actions[k]).id by {
            assert(check(k) is None);
        }
    }
    if valid_profile(profile) {
        assert forall|k: int| 0 <= k < profile.actions.len() implies #[trigger] check(
            k,
        ) is None by {
            no_action_error_iff_valid(profile.actions[k]);
            assert(valid_action(profile.actions[k]));
        }
    }
}

/// Validation finds nothing wrong with a config exactly when the config is
/// valid.
pub proof fn no_error_iff_valid(config: ConfigView)
    ensures
        config_error(config) is None <==> valid_config(config),
{
    let check = |i: int| profile_slot_error(config.profiles, i);
    let n = config.profiles.len();
    first_error_none(n, check);
    if config_error(config) is None {
        assert forall|i: int| 0 <= i < n implies valid_profile(#[trigger] config.profiles[i]) by {
            assert(check(i) is None);
            no_profile_error_iff_valid(config.profiles, i);
        }
        assert forall|i: int, j: int| 0 <= i < j < n implies guid_key_of(
            (#[trigger] config.profiles[i]).id,
        ) != guid_key_of((#[trigger] config.profiles[j]).id) by {
            assert(check(j) is None);
            no_profile_error_iff_valid(config.profiles, j);
        }
    }
    if valid_config(config) {
        assert forall|i: int| 0 <= i < n implies #[trigger] check(i) is None by {
            assert(valid_profile(config.profiles[i]));
            no_profile_error_iff_valid(config.profiles, i);
        }
    }
}

/// A profile on its own is accepted exactly when its own rules hold.
pub proof fn single_profile_config_valid(profile: ProfileView)
    ensures
        config_error(
            ConfigView { version: CURRENT_CONFIG_VERSION, profiles: seq![profile] },
        ) is None <==> valid_profile(profile),
{
    let config = ConfigView { version: CURRENT_CONFIG_VERSION, profiles: seq![profile] };
    no_error_iff_valid(config);
    assert(config.profiles[0] == profile);
}

} // verus!
