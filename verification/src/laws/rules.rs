//! What a config may hold.

use crate::config::{guid_key_of, Action, ActionKind, Config, Profile, ProfileView};
use crate::laws::runs::{guid_forms, keys_name_profiles, looks_like_a_guid, same_profile};
use crate::number::decimal;
use crate::text::{debug_text, is_alpha, is_blank, is_digit, white_space};
use crate::validation::{
    action_slot_error, first_error, has_scheme, has_uri_scheme, is_absolute_windows_path, is_scheme,
    no_action_error_iff_valid, no_error_iff_valid, profile_slot_error, single_profile_config_valid,
    valid_action, valid_kind, valid_profile, validate_action, validate_no_nul,
};
use vstd::prelude::*;
use vstd::string::*;

verus! {

// ---------- single texts ----------

/// A letter, a colon and a separator, or two backslashes, and then anything.
pub open spec fn starts_absolute(s: Seq<char>) -> bool {
    ||| s.len() >= 2 && s[0] == '\\' && s[1] == '\\'
    ||| s.len() >= 3 && ('a' <= s[0] <= 'z' || 'A' <= s[0] <= 'Z') && s[1] == ':' && (s[2] == '\\'
        || s[2] == '/')
}

/// Whether a path is absolute is decided by its first three characters: a
/// letter, a colon and a separator, or two backslashes. What follows does not
/// matter.
pub proof fn absolute_by_the_first_characters(path: &str, r: bool, c: char, rest: Seq<char>)
    requires
        call_ensures(is_absolute_windows_path, (path,), r),
    ensures
        r <==> starts_absolute(path@),
        path@ == seq!['\\', '\\'] + rest ==> r,
        ('a' <= c <= 'z' || 'A' <= c <= 'Z') && path@ == seq![c, ':', '\\'] + rest ==> r,
        ('a' <= c <= 'z' || 'A' <= c <= 'Z') && path@ == seq![c, ':', '/'] + rest ==> r,
{
}

/// A path stays what it is when anything is added behind its third character.
pub proof fn what_follows_does_not_matter(a: &str, b: &str, x: bool, y: bool)
    requires
        call_ensures(is_absolute_windows_path, (a,), x),
        call_ensures(is_absolute_windows_path, (b,), y),
        a@.len() >= 3,
        b@.len() >= 3,
        a@.take(3) == b@.take(3),
    ensures
        x == y,
{
    assert(a@.take(3)[0] == a@[0] && a@.take(3)[1] == a@[1] && a@.take(3)[2] == a@[2]);
    assert(b@.take(3)[0] == b@[0] && b@.take(3)[1] == b@[1] && b@.take(3)[2] == b@[2]);
}

/// A letter, at least one more letter, digit, `+`, `-` or `.`, and a colon,
/// and then anything.
pub open spec fn starts_with_scheme(s: Seq<char>) -> bool {
    exists|n: int|
        2 <= n < s.len() && #[trigger] s[n] == ':' && ('a' <= s[0] <= 'z' || 'A' <= s[0] <= 'Z')
            && forall|i: int|
            1 <= i < n ==> {
                ||| 'a' <= (#[trigger] s[i]) <= 'z'
                ||| 'A' <= s[i] <= 'Z'
                ||| '0' <= s[i] <= '9'
                ||| s[i] == '+' || s[i] == '-' || s[i] == '.'
            }
}

/// A text has a scheme when it starts with a letter, goes on with letters,
/// digits, `+`, `-` and `.`, and has a colon behind two characters or more.
pub proof fn schemes_end_at_a_colon(url: &str, r: bool)
    requires
        call_ensures(has_uri_scheme, (url,), r),
    ensures
        r <==> starts_with_scheme(url@),
{
    schemes(url@);
}

proof fn schemes(s: Seq<char>)
    ensures
        has_scheme(s) <==> starts_with_scheme(s),
{
    if has_scheme(s) {
        let n = choose|i: int| 2 <= i < s.len() && #[trigger] s[i] == ':' && is_scheme(s.take(i));
        let head = s.take(n);
        assert(head[0] == s[0]);
        assert(s[n] == ':');
        assert forall|i: int| 1 <= i < n implies {
            ||| 'a' <= (#[trigger] s[i]) <= 'z'
            ||| 'A' <= s[i] <= 'Z'
            ||| '0' <= s[i] <= '9'
            ||| s[i] == '+' || s[i] == '-' || s[i] == '.'
        } by {
            assert(head[i] == s[i]);
        }
    }
    if starts_with_scheme(s) {
        let n = choose|n: int|
            2 <= n < s.len() && #[trigger] s[n] == ':' && ('a' <= s[0] <= 'z' || 'A' <= s[0]
                <= 'Z') && forall|i: int|
                1 <= i < n ==> {
                    ||| 'a' <= (#[trigger] s[i]) <= 'z'
                    ||| 'A' <= s[i] <= 'Z'
                    ||| '0' <= s[i] <= '9'
                    ||| s[i] == '+' || s[i] == '-' || s[i] == '.'
                };
        let head = s.take(n);
        assert forall|i: int| 0 <= i < head.len() implies {
            ||| is_alpha(#[trigger] head[i])
            ||| i > 0 && (is_digit(head[i]) || head[i] == '+' || head[i] == '-' || head[i] == '.')
        } by {
            assert(head[i] == s[i]);
        }
        assert(is_scheme(head));
        assert(s[n] == ':');
    }
}

/// A text is refused for a NUL, and for nothing else.
pub proof fn only_nul_is_refused(field: &str, value: &str, r: Result<(), String>)
    requires
        call_ensures(validate_no_nul, (field, value), r),
    ensures
        r is Ok <==> !value@.contains('\0'),
        r matches Err(m) ==> m@ == field@ + " contains an interior NUL byte"@,
{
}

// ---------- actions ----------

/// Whether what an action does can be done: a program has a path that can be
/// quoted and an absolute directory, if any; a folder, a file and a command
/// are not empty; a URL has a scheme; a wait ends within a day; and no text
/// holds a NUL.
pub open spec fn can_be_done(kind: ActionKind) -> bool {
    match kind {
        ActionKind::Application { path, arguments, working_directory } => {
            &&& path@.len() > 0 && path@[path@.len() - 1] != '\\' && path@[path@.len() - 1] != '/'
            &&& !path@.contains('"') && !path@.contains('\0')
            &&& !arguments@.contains('\0')
            &&& working_directory matches Some(dir) ==> starts_absolute(dir@) && !dir@.contains(
                '\0',
            )
        },
        ActionKind::Folder { path } => path@.len() > 0 && !path@.contains('\0'),
        ActionKind::File { path } => path@.len() > 0 && !path@.contains('\0'),
        ActionKind::Url { url } => starts_with_scheme(url@) && !url@.contains('\0'),
        ActionKind::Command { shell, command } => command@.len() > 0 && !command@.contains('\0'),
        ActionKind::Wait { milliseconds } => milliseconds <= 24 * 60 * 60 * 1000,
    }
}

pub(crate) proof fn doable_kind(kind: ActionKind)
    ensures
        valid_kind(kind@) <==> can_be_done(kind),
{
    if let ActionKind::Url { url } = kind {
        schemes(url@);
    }
}

proof fn doable(action: Action)
    ensures
        valid_action(action@) <==> action.id@.len() > 0 && can_be_done(action.kind),
{
    doable_kind(action.kind);
}

/// An action is valid exactly when it has an id and what it does can be done.
/// Whether it is disabled does not matter.
pub proof fn what_makes_an_action_valid(action: &Action, r: Result<(), String>)
    requires
        call_ensures(validate_action, (action,), r),
    ensures
        r is Ok <==> action.id@.len() > 0 && can_be_done(action.kind),
{
    no_action_error_iff_valid(action@);
    doable(*action);
}

/// What is said of an invalid action names what is wrong with it.
pub proof fn refusals_name_what_is_wrong(action: &Action, r: Result<(), String>, m: Seq<char>)
    requires
        call_ensures(validate_action, (action,), r),
        r is Err,
        m == r->Err_0@,
    ensures
        action.id@.len() == 0 ==> m == "action id must not be empty"@,
        action.id@.len() > 0 ==> match action.kind {
            ActionKind::Application { path, arguments, working_directory } => {
                let last = path@[path@.len() - 1];
                let quotable = path@.len() > 0 && !path@.contains('"') && last != '\\' && last != '/';
                &&& path@.len() == 0 ==> m == "application path must not be empty"@
                &&& path@.contains('"') ==> m == "application path must not contain a quote: "@
                    + debug_text(path@)
                &&& path@.len() > 0 && !path@.contains('"') && (last == '\\' || last == '/') ==> m
                    == "application path must not end with a path separator: "@ + debug_text(path@)
                &&& quotable && path@.contains('\0') ==> m == "application path"@
                    + " contains an interior NUL byte"@
                &&& quotable && !path@.contains('\0') && arguments@.contains('\0') ==> m
                    == "application arguments"@ + " contains an interior NUL byte"@
                &&& quotable && !path@.contains('\0') && !arguments@.contains('\0') ==> {
                    let dir = working_directory->0@;
                    &&& dir.len() == 0 ==> m == "working_directory must not be empty"@
                    &&& dir.len() > 0 && !starts_absolute(dir) ==> m
                        == "working_directory must be an absolute path (e.g. C:\\dir or \\\\server\\share): "@
                        + debug_text(dir)
                    &&& starts_absolute(dir) ==> m == "working_directory"@
                        + " contains an interior NUL byte"@
                }
            },
            ActionKind::Folder { path } => {
                &&& path@.len() == 0 ==> m == "path must not be empty"@
                &&& path@.len() > 0 ==> m == "path"@ + " contains an interior NUL byte"@
            },
            ActionKind::File { path } => {
                &&& path@.len() == 0 ==> m == "path must not be empty"@
                &&& path@.len() > 0 ==> m == "path"@ + " contains an interior NUL byte"@
            },
            ActionKind::Url { url } => {
                &&& url@.len() == 0 ==> m == "url must not be empty"@
                &&& url@.contains('\0') ==> m == "url"@ + " contains an interior NUL byte"@
                &&& url@.len() > 0 && !url@.contains('\0') ==> m == "url "@ + debug_text(url@)
                    + " has no scheme (e.g. https:)"@
            },
            ActionKind::Command { command, .. } => {
                &&& command@.len() == 0 ==> m == "command must not be empty"@
                &&& command@.len() > 0 ==> m == "command"@ + " contains an interior NUL byte"@
            },
            ActionKind::Wait { milliseconds } => m == "wait of "@ + decimal(milliseconds as nat)
                + "ms exceeds the maximum of "@ + decimal(86_400_000) + "ms"@,
        },
{
    if let ActionKind::Application { path, .. } = action.kind {
        if path@.contains('"') {
            assert(path@.len() > 0);
        }
    }
    if let ActionKind::Url { url } = action.kind {
        if url@.contains('\0') {
            assert(url@.len() > 0);
        }
    }
}

/// A program stays valid whatever absolute directory without a NUL it is
/// given, and with none at all.
pub proof fn any_absolute_directory_will_do(
    before: &Action,
    after: &Action,
    path: String,
    arguments: String,
    directory: Option<String>,
    given: Option<String>,
    c: char,
    rest: Seq<char>,
    r: Result<(), String>,
    s: Result<(), String>,
)
    requires
        call_ensures(validate_action, (before,), r),
        call_ensures(validate_action, (after,), s),
        before.kind == (ActionKind::Application { path, arguments, working_directory: directory }),
        after.kind == (ActionKind::Application { path, arguments, working_directory: given }),
        before.id == after.id,
        r is Ok,
        'a' <= c <= 'z' || 'A' <= c <= 'Z',
        !rest.contains('\0'),
        given matches Some(dir) ==> dir@ == seq![c, ':', '\\'] + rest || dir@ == seq![c, ':', '/']
            + rest || dir@ == seq!['\\', '\\'] + rest,
    ensures
        s is Ok,
{
    no_action_error_iff_valid(before@);
    no_action_error_iff_valid(after@);
    doable(*before);
    doable(*after);
    if let Some(dir) = given {
        assert forall|i: int| 0 <= i < dir@.len() implies dir@[i] != '\0' by {
            let n = dir@.len() - rest.len();
            if i >= n {
                assert(rest.contains(rest[i - n]));
            }
        }
    }
}

// ---------- configs ----------

/// A character that leaves no mark.
pub open spec fn is_space(c: char) -> bool {
    ||| 9 <= c as int <= 13
    ||| c == ' '
    ||| c as int == 0x85 || c as int == 0xA0 || c as int == 0x1680
    ||| 0x2000 <= c as int <= 0x200A
    ||| c as int == 0x2028 || c as int == 0x2029 || c as int == 0x202F
    ||| c as int == 0x205F || c as int == 0x3000
}

/// Whether a profile's own rules hold: a GUID, a name that is not blank,
/// valid actions, and no action id twice.
pub open spec fn can_be_run(profile: Profile) -> bool {
    &&& looks_like_a_guid(profile.id@)
    &&& exists|k: int| 0 <= k < profile.name@.len() && !is_space(#[trigger] profile.name@[k])
    &&& forall|k: int|
        0 <= k < profile.actions@.len() ==> (#[trigger] profile.actions@[k]).id@.len() > 0
            && can_be_done(profile.actions@[k].kind)
    &&& forall|j: int, k: int|
        0 <= j < k < profile.actions@.len() ==> (#[trigger] profile.actions@[j]).id@ != (
        #[trigger] profile.actions@[k]).id@
}

pub(crate) proof fn runnable(profile: Profile)
    ensures
        valid_profile(profile@) <==> can_be_run(profile),
{
    let p = profile@;
    guid_forms(p.id);
    assert(is_blank(p.name) <==> !exists|k: int|
        0 <= k < profile.name@.len() && !is_space(#[trigger] profile.name@[k])) by {
        if !is_blank(p.name) {
            let i = choose|i: int| 0 <= i < p.name.len() && !white_space(#[trigger] p.name[i]);
            assert(!is_space(profile.name@[i]));
        } else {
            assert forall|k: int| 0 <= k < profile.name@.len() implies is_space(
                #[trigger] profile.name@[k],
            ) by {
                assert(white_space(p.name[k]));
            }
        }
    }
    assert forall|k: int| 0 <= k < p.actions.len() implies (valid_action(#[trigger] p.actions[k])
        <==> profile.actions@[k].id@.len() > 0 && can_be_done(profile.actions@[k].kind)) by {
        assert(p.actions[k] == profile.actions@[k]@);
        doable(profile.actions@[k]);
    }
    if valid_profile(p) {
        assert forall|k: int| 0 <= k < profile.actions@.len() implies (
        #[trigger] profile.actions@[k]).id@.len() > 0 && can_be_done(profile.actions@[k].kind) by {
            assert(valid_action(p.actions[k]));
        }
        assert forall|j: int, k: int| 0 <= j < k < profile.actions@.len() implies (
        #[trigger] profile.actions@[j]).id@ != (#[trigger] profile.actions@[k]).id@ by {
            assert(p.actions[j].id != p.actions[k].id);
        }
    }
    if can_be_run(profile) {
        assert forall|k: int| 0 <= k < p.actions.len() implies valid_action(
            #[trigger] p.actions[k],
        ) by {
            assert(profile.actions@[k].id@.len() > 0);
        }
        assert forall|j: int, k: int| 0 <= j < k < p.actions.len() implies (
        #[trigger] p.actions[j]).id != (#[trigger] p.actions[k]).id by {
            assert(profile.actions@[j].id@ != profile.actions@[k].id@);
        }
    }
}

/// Whether a config may be stored and run: the version that is supported,
/// profiles whose own rules hold, and no two that the same id names.
pub open spec fn may_be_kept(config: Config) -> bool {
    &&& config.version == 1
    &&& forall|i: int|
        0 <= i < config.profiles@.len() ==> can_be_run(#[trigger] config.profiles@[i])
    &&& forall|i: int, j: int|
        0 <= i < j < config.profiles@.len() ==> !same_profile(
            (#[trigger] config.profiles@[i]).id@,
            (#[trigger] config.profiles@[j]).id@,
        )
}

/// A config is valid exactly when its version is supported, the rules of each
/// profile hold, and no two profiles have the same id.
pub proof fn what_makes_a_config_valid(config: &Config, r: Result<(), String>)
    requires
        call_ensures(Config::validate, (config,), r),
    ensures
        r is Ok <==> may_be_kept(*config),
{
    no_error_iff_valid(config@);
    kept(*config);
}

pub(crate) proof fn kept(config: Config)
    ensures
        crate::validation::valid_config(config@) <==> may_be_kept(config),
{
    let c = config@;
    assert forall|i: int| 0 <= i < c.profiles.len() implies (valid_profile(
        #[trigger] c.profiles[i],
    ) <==> can_be_run(config.profiles@[i])) by {
        assert(c.profiles[i] == config.profiles@[i]@);
        runnable(config.profiles@[i]);
    }
    assert forall|i: int, j: int| 0 <= i < j < c.profiles.len() implies (guid_key_of(
        (#[trigger] c.profiles[i]).id,
    ) == guid_key_of((#[trigger] c.profiles[j]).id) <==> same_profile(
        config.profiles@[i].id@,
        config.profiles@[j].id@,
    )) by {
        assert(c.profiles[i] == config.profiles@[i]@);
        assert(c.profiles[j] == config.profiles@[j]@);
        keys_name_profiles(c.profiles[i].id, c.profiles[j].id);
    }
    if crate::validation::valid_config(c) {
        assert forall|i: int| 0 <= i < config.profiles@.len() implies can_be_run(
            #[trigger] config.profiles@[i],
        ) by {
            assert(valid_profile(c.profiles[i]));
        }
        assert forall|i: int, j: int| 0 <= i < j < config.profiles@.len() implies !same_profile(
            (#[trigger] config.profiles@[i]).id@,
            (#[trigger] config.profiles@[j]).id@,
        ) by {
            assert(guid_key_of(c.profiles[i].id) != guid_key_of(c.profiles[j].id));
        }
    }
    if may_be_kept(config) {
        assert forall|i: int| 0 <= i < c.profiles.len() implies valid_profile(
            #[trigger] c.profiles[i],
        ) by {
            assert(can_be_run(config.profiles@[i]));
        }
        assert forall|i: int, j: int| 0 <= i < j < c.profiles.len() implies guid_key_of(
            (#[trigger] c.profiles[i]).id,
        ) != guid_key_of((#[trigger] c.profiles[j]).id) by {
            assert(!same_profile(config.profiles@[i].id@, config.profiles@[j].id@));
        }
    }
}

/// What is said of a config with one thing wrong names it: a version that is
/// not supported, and of the first profile an id that is no GUID or a name
/// that is blank.
pub proof fn refusals_name_the_profile(config: &Config, r: Result<(), String>, first: Profile)
    requires
        call_ensures(Config::validate, (config,), r),
        config.profiles@.len() > 0 ==> first == config.profiles@[0],
    ensures
        config.version != 1 ==> r is Err && r->Err_0@ == "unsupported config version "@ + decimal(
            config.version as nat,
        ) + " (supported: "@ + decimal(1) + ")"@,
        config.version == 1 && config.profiles@.len() > 0 ==> {
            let blank = forall|k: int|
                0 <= k < first.name@.len() ==> is_space(#[trigger] first.name@[k]);
            &&& !looks_like_a_guid(first.id@) ==> r is Err && r->Err_0@ == "profile id "@
                + debug_text(first.id@) + " is not a valid GUID"@
            &&& looks_like_a_guid(first.id@) && blank ==> r is Err && r->Err_0@ == "profile "@
                + debug_text(first.id@) + " has an empty name"@
        },
{
    if config.version == 1 && config.profiles@.len() > 0 {
        let a = config@.profiles;
        let f = |i: int| profile_slot_error(a, i);
        assert(a[0] == first@);
        guid_forms(first.id@);
        let blank = forall|k: int|
            0 <= k < first.name@.len() ==> is_space(#[trigger] first.name@[k]);
        if blank {
            assert forall|i: int| 0 <= i < first.name@.len() implies white_space(
                #[trigger] first.name@[i],
            ) by {
                assert(is_space(first.name@[i]));
            }
            assert(is_blank(first.name@));
        }
        if !looks_like_a_guid(first.id@) || blank {
            assert(f(0) is Some);
            reveal_with_fuel(first_error, 2);
            assert(first_error(1, f) == f(0));
            longer_first(1, a.len(), f);
        }
    }
}

/// What is said of an action of the first profile names the profile: what is
/// wrong with its first action, or that its second has the same id. What is
/// said of a second profile with the id of the first is that.
pub proof fn refusals_name_the_action(
    config: &Config,
    r: Result<(), String>,
    first: Profile,
    checked: Result<(), String>,
)
    requires
        call_ensures(Config::validate, (config,), r),
        config.version == 1,
        config.profiles@.len() > 0,
        first == config.profiles@[0],
        looks_like_a_guid(first.id@),
        exists|k: int| 0 <= k < first.name@.len() && !is_space(#[trigger] first.name@[k]),
        first.actions@.len() > 0 ==> call_ensures(
            validate_action,
            (&first.actions@[0],),
            checked,
        ),
    ensures
        first.actions@.len() > 0 && checked is Err ==> r is Err && r->Err_0@ == "profile "@
            + debug_text(first.id@) + ": "@ + checked->Err_0@,
        first.actions@.len() > 1 && checked is Ok && first.actions@[1].id@ == first.actions@[0].id@
            && can_be_done(first.actions@[1].kind) ==> r is Err && r->Err_0@ == "profile "@
            + debug_text(first.id@) + ": duplicate action id "@ + debug_text(
            first.actions@[1].id@,
        ),
        can_be_run(first) && config.profiles@.len() > 1 && looks_like_a_guid(
            config.profiles@[1].id@,
        ) && same_profile(first.id@, config.profiles@[1].id@) ==> r is Err && r->Err_0@
            == "duplicate profile id "@ + debug_text(config.profiles@[1].id@),
{
    let a = config@.profiles;
    let f = |i: int| profile_slot_error(a, i);
    assert(a[0] == first@);
    guid_forms(first.id@);
    let k = choose|k: int| 0 <= k < first.name@.len() && !is_space(#[trigger] first.name@[k]);
    assert(!white_space(first@.name[k]));
    assert(!is_blank(first@.name));
    let g = |k: int| action_slot_error(first@, k);
    reveal_with_fuel(first_error, 3);
    assert(first_error(1, f) == f(0));
    if first.actions@.len() > 0 {
        assert(first@.actions[0] == first.actions@[0]@);
        assert(first_error(1, g) == g(0));
        if checked is Err {
            longer_first(1, first@.actions.len(), g);
            longer_first(1, a.len(), f);
        } else if first.actions@.len() > 1 && first.actions@[1].id@ == first.actions@[0].id@
            && can_be_done(first.actions@[1].kind) {
            assert(first@.actions[1] == first.actions@[1]@);
            no_action_error_iff_valid(first@.actions[0]);
            no_action_error_iff_valid(first@.actions[1]);
            doable(first.actions@[1]);
            assert(first@.actions[0].id == first@.actions[1].id);
            assert(g(0) is None);
            assert(g(1) is Some);
            assert(first_error(2, g) == g(1));
            longer_first(2, first@.actions.len(), g);
            longer_first(1, a.len(), f);
        }
    }
    if can_be_run(first) && config.profiles@.len() > 1 && looks_like_a_guid(
        config.profiles@[1].id@,
    ) && same_profile(first.id@, config.profiles@[1].id@) {
        assert(a[1] == config.profiles@[1]@);
        guid_forms(a[1].id);
        keys_name_profiles(a[0].id, a[1].id);
        runnable(first);
        single_profile_config_valid(first@);
        let one = seq![first@];
        let h = |i: int| profile_slot_error(one, i);
        assert(first_error(1, h) == h(0));
        assert(f(0) == h(0));
        assert(guid_key_of(a[0].id) == guid_key_of(a[1].id));
        assert(first_error(2, f) == f(1));
        longer_first(2, a.len(), f);
    }
}

/// The error that is reported is the first one: profiles behind it change
/// nothing of it.
pub proof fn the_first_error_is_reported(
    short: &Config,
    long: &Config,
    more: Seq<Profile>,
    r: Result<(), String>,
    s: Result<(), String>,
)
    requires
        call_ensures(Config::validate, (short,), r),
        call_ensures(Config::validate, (long,), s),
        long.version == short.version,
        long.profiles@ == short.profiles@ + more,
        r is Err,
    ensures
        s is Err,
        s->Err_0@ == r->Err_0@,
{
    let a = short@.profiles;
    let b = long@.profiles;
    if short.version == 1 {
        let n = a.len();
        let f = |i: int| profile_slot_error(a, i);
        let g = |i: int| profile_slot_error(b, i);
        assert forall|k: int| 0 <= k < n implies a[k] == #[trigger] b[k] by {
            assert(a[k] == short.profiles@[k]@ && b[k] == long.profiles@[k]@);
        }
        assert forall|i: int| 0 <= i < n implies #[trigger] f(i) == g(i) by {
            same_slot(a, b, i);
        }
        same_first(n, f, g);
        longer_first(n, b.len(), g);
    }
}

proof fn same_slot(short: Seq<ProfileView>, long: Seq<ProfileView>, i: int)
    requires
        0 <= i < short.len() <= long.len(),
        forall|k: int| 0 <= k < short.len() ==> short[k] == #[trigger] long[k],
    ensures
        profile_slot_error(short, i) == profile_slot_error(long, i),
{
    assert(short[i] == long[i]);
    let key = guid_key_of(short[i].id);
    if exists|j: int| 0 <= j < i && guid_key_of(#[trigger] short[j].id) == key {
        let j = choose|j: int| 0 <= j < i && guid_key_of(#[trigger] short[j].id) == key;
        assert(guid_key_of(long[j].id) == key);
    }
    if exists|j: int| 0 <= j < i && guid_key_of(#[trigger] long[j].id) == key {
        let j = choose|j: int| 0 <= j < i && guid_key_of(#[trigger] long[j].id) == key;
        assert(guid_key_of(short[j].id) == key);
    }
}

proof fn same_first(
    n: nat,
    a: spec_fn(int) -> Option<Seq<char>>,
    b: spec_fn(int) -> Option<Seq<char>>,
)
    requires
        forall|i: int| 0 <= i < n ==> #[trigger] a(i) == b(i),
    ensures
        first_error(n, a) == first_error(n, b),
    decreases n,
{
    if n > 0 {
        same_first((n - 1) as nat, a, b);
        assert(a(n - 1) == b(n - 1));
    }
}

proof fn longer_first(n: nat, m: nat, check: spec_fn(int) -> Option<Seq<char>>)
    requires
        n <= m,
        first_error(n, check) is Some,
    ensures
        first_error(m, check) == first_error(n, check),
    decreases m,
{
    if n < m {
        longer_first(n, (m - 1) as nat, check);
    }
}

} // verus!
