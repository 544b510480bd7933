//! The command line, and what the program prints and ends with.

use crate::args::{
    arg_views, behind, both_forms_select, location_word, mode_at, parse, ArgsError, Mode,
    ShortcutLocation,
};
use crate::autostart::{
    is_enabled, key_created, key_opened, run_command, value_deleted, value_written, AutostartError,
    RunEntry,
};
use crate::cli::{
    chosen_profile, fail, forwarded, line_views, outcome_lines, profile_report, resident_exit,
    running_line, shortcut_places, shortcut_report, skipped_lines, Exit, ShortcutRun,
};
use crate::config::{optional_text, Config, Profile};
use crate::ipc::{ipc_error_text, ForwardOutcome, IpcError};
use crate::laws::runs::{guid_forms, looks_like_a_guid};
use crate::number::decimal;
use crate::profile::{find_profile, is_first_named, ActionStatus, ProfileResult};
use crate::resident::{resident_error_text, ResidentError};
use crate::shortcut::{self, shortcut_error_text, ShortcutError};
use crate::storage::{config_error_text, ConfigError};
use crate::text::debug_text;
use crate::utf16::wide;
use vstd::prelude::*;
use vstd::string::*;

verus! {

// ---------- the command line ----------

/// Whether the arguments are these words.
pub open spec fn are_words(args: Seq<Option<String>>, words: Seq<Seq<char>>) -> bool {
    &&& args.len() == words.len()
    &&& forall|i: int| 0 <= i < args.len() ==> (#[trigger] args[i]) is Some && args[i]->0@ == words[i]
}

/// Whether a word is the name of a location.
pub open spec fn names_location(word: Seq<char>, location: ShortcutLocation) -> bool {
    match location {
        ShortcutLocation::Desktop => word == "desktop"@,
        ShortcutLocation::StartMenu => word == "startmenu"@,
        ShortcutLocation::Both => word == "both"@,
    }
}

proof fn views_are(args: Seq<Option<String>>, words: Seq<Seq<char>>, views: Seq<Option<Seq<char>>>)
    requires
        are_words(args, words),
        views.len() == words.len(),
        forall|i: int| 0 <= i < views.len() ==> #[trigger] views[i] == Some(words[i]),
    ensures
        arg_views(args) == views,
{
    let v = arg_views(args);
    assert forall|i: int| 0 <= i < v.len() implies v[i] == views[i] by {
        assert(args[i]->0@ == words[i]);
        assert(v[i] == optional_text(args[i]));
        assert(views[i] == Some(words[i]));
    }
    assert(v =~= views);
}

/// Every form that the usage names selects its mode: nothing the manager,
/// `--settings` too, `--resident` the resident, `--profile` with a GUID that
/// profile, and `--shortcut` with a GUID its shortcut, on the desktop unless a
/// location follows.
pub proof fn every_form_selects_its_mode(
    args: &[Option<String>],
    r: Result<Mode, ArgsError>,
    id: Seq<char>,
    word: Seq<char>,
    location: ShortcutLocation,
)
    requires
        call_ensures(parse, (args,), r),
    ensures
        args@.len() == 0 ==> r is Ok && r->Ok_0 is Gui,
        are_words(args@, seq!["--resident"@]) ==> r is Ok && r->Ok_0 is Resident,
        are_words(args@, seq!["--settings"@]) ==> r is Ok && r->Ok_0 is Settings,
        looks_like_a_guid(id) ==> {
            &&& are_words(args@, seq!["--profile"@, id]) || are_words(
                args@,
                seq!["--profile="@ + id],
            ) ==> {
                r matches Ok(Mode::Profile(got)) && got@ == id
            }
            &&& are_words(args@, seq!["--shortcut"@, id]) || are_words(
                args@,
                seq!["--shortcut="@ + id],
            ) ==> {
                r matches Ok(Mode::Shortcut { id: got, location: at }) && got@ == id && at
                    == ShortcutLocation::Desktop
            }
            &&& names_location(word, location) && (are_words(
                args@,
                seq!["--shortcut"@, id, word],
            ) || are_words(args@, seq!["--shortcut="@ + id, word])) ==> {
                r matches Ok(Mode::Shortcut { id: got, location: at }) && got@ == id && at
                    == location
            }
        },
{
    let views = arg_views(args@);
    if are_words(args@, seq!["--resident"@]) {
        views_are(args@, seq!["--resident"@], seq![Some("--resident"@)]);
    }
    if are_words(args@, seq!["--settings"@]) {
        reveal_strlit("--resident");
        reveal_strlit("--settings");
        assert("--resident"@[2] == 'r' && "--settings"@[2] == 's');
        views_are(args@, seq!["--settings"@], seq![Some("--settings"@)]);
    }
    guid_forms(id);
    if looks_like_a_guid(id) {
        reveal_strlit("desktop");
        reveal_strlit("startmenu");
        reveal_strlit("both");
        both_forms_select(id, word);
        if names_location(word, location) {
            assert(location_word(word) == Some(location));
        }
        if are_words(args@, seq!["--profile"@, id]) {
            views_are(args@, seq!["--profile"@, id], seq![Some("--profile"@), Some(id)]);
        }
        if are_words(args@, seq!["--profile="@ + id]) {
            views_are(args@, seq!["--profile="@ + id], seq![Some("--profile="@ + id)]);
        }
        if are_words(args@, seq!["--shortcut"@, id]) {
            views_are(args@, seq!["--shortcut"@, id], seq![Some("--shortcut"@), Some(id)]);
        }
        if are_words(args@, seq!["--shortcut="@ + id]) {
            views_are(args@, seq!["--shortcut="@ + id], seq![Some("--shortcut="@ + id)]);
        }
        if are_words(args@, seq!["--shortcut"@, id, word]) {
            views_are(
                args@,
                seq!["--shortcut"@, id, word],
                seq![Some("--shortcut"@), Some(id), Some(word)],
            );
        }
        if are_words(args@, seq!["--shortcut="@ + id, word]) {
            views_are(
                args@,
                seq!["--shortcut="@ + id, word],
                seq![Some("--shortcut="@ + id), Some(word)],
            );
        }
    }
}

/// Nothing else is a command line: whatever is accepted has one of those
/// forms.
pub proof fn no_other_form_is_accepted(args: &[Option<String>], r: Result<Mode, ArgsError>)
    requires
        call_ensures(parse, (args,), r),
    ensures
        match r {
            Ok(Mode::Gui) => args@.len() == 0,
            Ok(Mode::Resident) => are_words(args@, seq!["--resident"@]),
            Ok(Mode::Settings) => are_words(args@, seq!["--settings"@]),
            Ok(Mode::Profile(id)) => looks_like_a_guid(id@) && (are_words(
                args@,
                seq!["--profile"@, id@],
            ) || are_words(args@, seq!["--profile="@ + id@])),
            Ok(Mode::Shortcut { id, location }) => looks_like_a_guid(id@) && {
                ||| location is Desktop && (are_words(args@, seq!["--shortcut"@, id@])
                    || are_words(args@, seq!["--shortcut="@ + id@]))
                ||| exists|word: Seq<char>| #[trigger]
                    names_location(word, location) && (are_words(
                        args@,
                        seq!["--shortcut"@, id@, word],
                    ) || are_words(args@, seq!["--shortcut="@ + id@, word]))
            },
            Err(_) => true,
        },
{
    let v = arg_views(args@);
    if v.len() > 0 && r is Ok {
        assert forall|i: int| 0 <= i < v.len() implies #[trigger] v[i] == optional_text(
            args@[i],
        ) by {}
        let (mode, next) = mode_at(v, 0)->Ok_0;
        assert(v[0] is Some);
        let arg = v[0]->0;
        assert(arg == args@[0]->0@);
        if let Some(rest) = behind(arg, "--profile="@) {
            assert(arg =~= "--profile="@ + rest);
        }
        if let Some(rest) = behind(arg, "--shortcut="@) {
            assert(arg =~= "--shortcut="@ + rest);
        }
        if let Ok(Mode::Profile(id)) = r {
            guid_forms(id@);
            if arg == "--profile"@ {
                assert(v[1] == Some(id@));
                assert(args@[1]->0@ == id@);
            }
        }
        if let Ok(Mode::Shortcut { id, location }) = r {
            guid_forms(id@);
            if arg == "--shortcut"@ {
                assert(v[1] == Some(id@));
                assert(args@[1]->0@ == id@);
                if v.len() == 3 {
                    assert(v[2] is Some);
                    assert(args@[2]->0@ == v[2]->0);
                    assert(names_location(v[2]->0, location));
                }
            } else if v.len() == 2 {
                assert(v[1] is Some);
                assert(args@[1]->0@ == v[1]->0);
                assert(names_location(v[1]->0, location));
            }
        }
    }
}

/// What is said of a command line that is refused: an argument that is no
/// text or no flag, a flag without a GUID, or a second mode.
pub proof fn refusals_name_the_argument(
    args: &[Option<String>],
    r: Result<Mode, ArgsError>,
    word: Seq<char>,
    flag: Seq<char>,
)
    requires
        call_ensures(parse, (args,), r),
    ensures
        args@.len() > 0 && args@[0] is None ==> r is Err && r->Err_0.message@
            == "argument is not valid Unicode"@,
        are_words(args@, seq![word]) && word.len() > 0 && word[0] != '-' ==> r is Err
            && r->Err_0.message@ == "unknown argument "@ + debug_text(word),
        (flag == "--profile"@ || flag == "--shortcut"@) && are_words(args@, seq![flag]) ==> r is Err
            && r->Err_0.message@ == flag + " requires a GUID value"@,
        (flag == "--profile"@ || flag == "--shortcut"@) && are_words(args@, seq![flag, word])
            && !looks_like_a_guid(word) ==> r is Err && r->Err_0.message@ == flag
            + " expects a GUID like {XXXXXXXX-XXXX-XXXX-XXXX-XXXXXXXXXXXX}, got "@ + debug_text(
            word,
        ),
        (flag == "--profile"@ || flag == "--shortcut"@) && are_words(
            args@,
            seq![flag + seq!['='] + word],
        ) && !looks_like_a_guid(word) ==> r is Err && r->Err_0.message@ == flag
            + " expects a GUID like {XXXXXXXX-XXXX-XXXX-XXXX-XXXXXXXXXXXX}, got "@ + debug_text(
            word,
        ),
        are_words(args@, seq!["--resident"@, "--settings"@]) || are_words(
            args@,
            seq!["--settings"@, "--resident"@],
        ) ==> r is Err && r->Err_0.message@ == "only one mode may be given"@,
{
    reveal_strlit("--resident");
    reveal_strlit("--settings");
    reveal_strlit("--profile");
    reveal_strlit("--profile=");
    reveal_strlit("--shortcut");
    reveal_strlit("--shortcut=");
    let v = arg_views(args@);
    if args@.len() > 0 {
        assert(v[0] == optional_text(args@[0]));
    }
    assert("--resident"@[2] == 'r' && "--settings"@[2] == 's' && "--settings"@[3] == 'e');
    assert("--profile"@[2] == 'p' && "--shortcut"@[2] == 's' && "--shortcut"@[3] == 'h');
    if are_words(args@, seq![word]) && word.len() > 0 && word[0] != '-' {
        views_are(args@, seq![word], seq![Some(word)]);
        if let Some(rest) = behind(word, "--profile="@) {
            assert(word.take(10)[0] == "--profile="@[0]);
        }
        if let Some(rest) = behind(word, "--shortcut="@) {
            assert(word.take(11)[0] == "--shortcut="@[0]);
        }
    }
    if flag == "--profile"@ || flag == "--shortcut"@ {
        if flag == "--shortcut"@ {
            assert(flag.take(10)[2] == 's' && "--profile="@[2] == 'p');
            assert(behind(flag, "--profile="@) is None);
        }
        if are_words(args@, seq![flag]) {
            views_are(args@, seq![flag], seq![Some(flag)]);
        }
        guid_forms(word);
        if are_words(args@, seq![flag, word]) {
            views_are(args@, seq![flag, word], seq![Some(flag), Some(word)]);
        }
        let joined = flag + seq!['='] + word;
        if are_words(args@, seq![joined]) {
            views_are(args@, seq![joined], seq![Some(joined)]);
            assert(joined[2] == flag[2] && joined[3] == flag[3]);
            assert(joined[flag.len() as int] == '=');
            if flag == "--profile"@ {
                assert(joined.take(10) =~= "--profile="@);
                assert(joined.skip(10) =~= word);
                assert(joined != flag);
            } else {
                assert(joined.take(10)[2] == 's');
                assert(behind(joined, "--profile="@) is None);
                assert(joined.take(11) =~= "--shortcut="@);
                assert(joined.skip(11) =~= word);
                assert(joined.len() > flag.len());
            }
        }
    }
    if are_words(args@, seq!["--resident"@, "--settings"@]) {
        views_are(
            args@,
            seq!["--resident"@, "--settings"@],
            seq![Some("--resident"@), Some("--settings"@)],
        );
    }
    if are_words(args@, seq!["--settings"@, "--resident"@]) {
        views_are(
            args@,
            seq!["--settings"@, "--resident"@],
            seq![Some("--settings"@), Some("--resident"@)],
        );
    }
}

/// What is said of a refused command line is followed by the usage.
pub proof fn refusals_show_the_usage(e: &ArgsError, r: String)
    requires
        call_ensures(ArgsError::text, (e,), r),
    ensures
        r@ == e.message@ + "\n\n"@ + crate::args::USAGE@,
{
}

// ---------- how the program ends ----------

/// A failure is told on the standard error, with exit code two.
pub proof fn failures_end_with_two(message: &str, r: Exit)
    requires
        call_ensures(fail, (message,), r),
    ensures
        r.code == 2,
        r.output is None,
        r.error is Some && r.error->0@ == "error: "@ + message@,
{
}

/// The resident ends with success when it stopped or another one is running,
/// and with an error else.
pub proof fn a_second_resident_is_no_error(result: Result<(), ResidentError>, r: Exit)
    requires
        call_ensures(resident_exit, (result,), r),
    ensures
        r.code == 0 <==> result is Ok || result == Err::<(), ResidentError>(
            ResidentError::AlreadyRunning,
        ),
        r.code == 0 ==> r.output is Some && r.error is None,
        r.code != 0 ==> r.code == 2 && r.output is None && r.error is Some,
        result is Ok ==> r.output->0@ == "Resident stopped."@,
        result == Err::<(), ResidentError>(ResidentError::AlreadyRunning) ==> r.output->0@
            == "A Project Launcher resident is already running."@,
        result is Err && !(result->Err_0 is AlreadyRunning) ==> r.error->0@ == "error: "@
            + resident_error_text(result->Err_0),
{
}

/// A request that the resident took ends the program with success, one that
/// it refused or that did not reach it with an error; and without a resident
/// the program goes on.
pub proof fn forwarding_decides_how_to_go_on(
    id: &str,
    outcome: Result<ForwardOutcome, IpcError>,
    r: Option<Exit>,
)
    requires
        call_ensures(forwarded, (id, outcome), r),
    ensures
        r is None <==> outcome == Ok::<ForwardOutcome, IpcError>(ForwardOutcome::NoResident),
        r matches Some(exit) ==> {
            &&& exit.code == 0 <==> outcome == Ok::<ForwardOutcome, IpcError>(
                ForwardOutcome::Delivered,
            )
            &&& exit.code == 0 ==> exit.error is None && exit.output is Some && exit.output->0@
                == "Forwarded the run request for profile "@ + id@ + " to the resident."@
            &&& exit.code != 0 ==> exit.code == 2 && exit.output is None && exit.error is Some
            &&& outcome is Ok && exit.code != 0 ==> exit.error->0@
                == "error: the resident rejected the request for profile "@ + id@
                + " (unknown profile id, or blocked by UIPI integrity levels)"@
            &&& outcome matches Err(e) ==> exit.error->0@ == "error: "@ + ipc_error_text(e)
        },
{
}

/// The profile that an id names is the first with that id; where there is
/// none, or no config, the program ends with an error.
pub proof fn the_named_profile_is_chosen(
    loaded: &Result<Config, ConfigError>,
    id: &str,
    r: Result<&Profile, Exit>,
    found: Option<&Profile>,
)
    requires
        call_ensures(chosen_profile, (loaded, id), r),
        loaded matches Ok(config) ==> call_ensures(find_profile, (config, id), found),
    ensures
        r is Ok <==> loaded is Ok && found is Some,
        r matches Ok(profile) ==> *profile == *found->0,
        r matches Err(exit) ==> exit.code == 2 && exit.output is None && exit.error is Some,
        loaded matches Err(e) ==> r->Err_0.error->0@ == "error: "@ + config_error_text(*e),
        loaded is Ok && r is Err ==> r->Err_0.error->0@ == "error: no profile with id "@
            + debug_text(id@) + " in the config"@,
{
    if let Ok(config) = loaded {
        if let Ok(profile) = r {
            let i = choose|i: int| #[trigger]
                is_first_named(config@.profiles, id@, i) && *profile == config.profiles@[i];
            if let Some(p) = found {
                let j = choose|j: int| #[trigger]
                    is_first_named(config@.profiles, id@, j) && *p == config.profiles@[j];
                assert(i == j) by {
                    if i < j {
                        assert(is_first_named(config@.profiles, id@, i));
                        assert(config@.profiles[i].id == config@.profiles[i].id);
                    } else if j < i {
                        assert(config@.profiles[j].id == config@.profiles[j].id);
                    }
                }
            } else {
                assert(config@.profiles[i].id == config@.profiles[i].id);
            }
        }
    }
}

/// A run is reported in its order: a line for each action that was run, with
/// its mark and id; a line on those that were skipped, where there are any;
/// and the sum. The program ends with success when nothing failed, and with
/// one else.
pub proof fn runs_are_reported_in_order(
    result: &ProfileResult,
    r: (Vec<String>, u8),
    i: int,
    failed: usize,
    success: bool,
)
    requires
        call_ensures(profile_report, (result,), r),
        call_ensures(ProfileResult::failure_count, (result,), failed),
        call_ensures(ProfileResult::is_success, (result,), success),
        0 <= i < result.outcomes@.len(),
    ensures
        r.1 == 0 <==> success,
        r.1 != 0 ==> r.1 == 1,
        r.0@.len() == result.outcomes@.len() + (if result.skipped_disabled > 0 {
            2int
        } else {
            1int
        }),
        match result.outcomes@[i].status {
            ActionStatus::Succeeded => r.0@[i]@ == "  "@ + ("[ok]     "@
                + result.outcomes@[i].action_id@),
            ActionStatus::Failed(e) => r.0@[i]@ == "  "@ + ("[FAILED] "@
                + result.outcomes@[i].action_id@ + ": "@ + e@),
        },
        result.skipped_disabled > 0 ==> r.0@[result.outcomes@.len() as int]@ == "  ("@ + decimal(
            result.skipped_disabled as nat,
        ) + " disabled action(s) skipped)"@,
        success ==> r.0@.last()@ == "Profile finished: all "@ + decimal(result.outcomes@.len())
            + " action(s) succeeded."@,
        !success ==> r.0@.last()@ == "Profile finished: "@ + decimal(failed as nat) + " of "@
            + decimal(result.outcomes@.len()) + " action(s) failed."@,
{
    let v = line_views(r.0@);
    let n = result.outcomes@.len() as int;
    assert(v.len() == r.0@.len());
    assert(v[i] == r.0@[i]@);
    assert(v[i] == outcome_lines(result.outcomes@)[i]);
    assert(v[n] == r.0@[n]@);
    if result.skipped_disabled > 0 {
        assert(v[n] == skipped_lines(result.skipped_disabled as nat)[0]);
    }
    let last = v.len() - 1;
    assert(v[last] == r.0@[last]@);
}

/// What is printed before a run names the profile.
pub proof fn a_run_is_announced(profile: &Profile, r: String)
    requires
        call_ensures(running_line, (profile,), r),
    ensures
        r@ == "Running profile '"@ + profile.name@ + "' ("@ + profile.id@ + ")"@,
{
}

// ---------- shortcuts ----------

/// A location stands for its place, and `both` for the desktop and then the
/// start menu. They are tried one after the other, whatever came of the first.
pub proof fn locations_stand_for_places(
    location: ShortcutLocation,
    r: Vec<shortcut::ShortcutLocation>,
    fresh: ShortcutRun,
    run: &ShortcutRun,
    next: Option<shortcut::ShortcutLocation>,
)
    requires
        call_ensures(shortcut_places, (location,), r),
        call_ensures(ShortcutRun::new, (location,), fresh),
        run.location == location,
        call_ensures(ShortcutRun::next, (run,), next),
    ensures
        r@.len() == (if location is Both {
            2int
        } else {
            1int
        }),
        r@[0] == (if location is StartMenu {
            shortcut::ShortcutLocation::StartMenu
        } else {
            shortcut::ShortcutLocation::Desktop
        }),
        location is Both ==> r@[1] == shortcut::ShortcutLocation::StartMenu,
        fresh.location == location && fresh.made@.len() == 0,
        next is Some <==> run.made@.len() < r@.len(),
        next is Some ==> next->0 == r@[run.made@.len() as int],
{
}

/// What came of a place is kept behind what came of those before it.
pub proof fn results_are_kept_in_order(run: &mut ShortcutRun, made: Result<String, ShortcutError>)
    requires
        call_ensures(ShortcutRun::record, (run, made), ()),
    ensures
        final(run).location == old(run).location,
        final(run).made@.len() == old(run).made@.len() + 1,
        final(run).made@.last() == made,
        final(run).made@.drop_last() == old(run).made@,
        old(run).well_formed() <==> old(run).made@.len() <= (if old(run).location is Both {
            2nat
        } else {
            1nat
        }),
{
}

/// Each shortcut is reported in its order: created on the standard output, a
/// failure on the standard error. One failure is enough to end with an error.
pub proof fn shortcuts_are_reported_in_order(
    made: &Vec<Result<String, ShortcutError>>,
    r: (Vec<Result<String, String>>, u8),
    i: int,
)
    requires
        call_ensures(shortcut_report, (made,), r),
        0 <= i < made@.len(),
    ensures
        r.0@.len() == made@.len(),
        r.0@[i] is Ok <==> made@[i] is Ok,
        made@[i] matches Ok(path) ==> r.0@[i]->Ok_0@ == "Created "@ + path@,
        made@[i] matches Err(e) ==> r.0@[i]->Err_0@ == "error: "@ + shortcut_error_text(e),
        r.1 == 0 || r.1 == 2,
        r.1 == 0 ==> made@[i] is Ok,
        r.1 == 2 ==> exists|k: int| 0 <= k < made@.len() && (#[trigger] made@[k]) is Err,
{
}

// ---------- the logon entry ----------

/// What is registered is the executable in quotes and the flag of the
/// resident; what is removed is gone. Removing needs no path.
pub proof fn the_logon_entry_starts_the_resident(
    enabled: bool,
    exe: Result<Option<String>, String>,
    command: Result<String, AutostartError>,
    r: Result<RunEntry, AutostartError>,
)
    requires
        call_ensures(run_command, (exe,), command),
        call_ensures(crate::autostart::set, (enabled, exe), r),
    ensures
        command is Ok <==> exe is Ok && exe->Ok_0 is Some,
        exe matches Ok(Some(path)) ==> command->Ok_0@ == seq!['"'] + path@ + seq![
            '"',
            ' ',
            '-',
            '-',
            'r',
            'e',
            's',
            'i',
            'd',
            'e',
            'n',
            't',
        ],
        exe matches Err(e) ==> command->Err_0 == AutostartError::NoExePath(e),
        exe == Ok::<Option<String>, String>(None) ==> command->Err_0 is NonUnicodeExePath,
        !enabled ==> r is Ok && r->Ok_0 is Delete,
        enabled ==> (r is Ok <==> command is Ok),
        enabled && r is Ok ==> {
            r->Ok_0 matches RunEntry::Write { data } && data@ == wide(command->Ok_0@)
        },
        enabled && r is Err ==> r->Err_0 == command->Err_0,
{
    reveal_strlit("\"");
    reveal_strlit("\" --resident");
    if let Ok(Some(path)) = exe {
        assert(command->Ok_0@ =~= seq!['"'] + path@ + seq![
            '"',
            ' ',
            '-',
            '-',
            'r',
            'e',
            's',
            'i',
            'd',
            'e',
            'n',
            't',
        ]);
    }
}

/// A key or value that is not there is no error for reading and deleting, but
/// is one for writing; any other code is one for all.
pub proof fn absent_entries_are_no_error(
    rc: u32,
    opened: Result<bool, AutostartError>,
    created: Result<(), AutostartError>,
    written: Result<(), AutostartError>,
    deleted: Result<(), AutostartError>,
)
    requires
        call_ensures(key_opened, (rc,), opened),
        call_ensures(key_created, (rc,), created),
        call_ensures(value_written, (rc,), written),
        call_ensures(value_deleted, (rc,), deleted),
    ensures
        rc == 0 ==> opened == Ok::<bool, AutostartError>(true),
        rc == 2 ==> opened == Ok::<bool, AutostartError>(false),
        opened is Err <==> rc != 0 && rc != 2,
        created is Ok <==> rc == 0,
        written is Ok <==> rc == 0,
        deleted is Ok <==> rc == 0 || rc == 2,
        opened matches Err(e) ==> is_from(e, "RegOpenKeyExW"@, rc),
        created matches Err(e) ==> is_from(e, "RegCreateKeyExW"@, rc),
        written matches Err(e) ==> is_from(e, "RegSetValueExW"@, rc),
        deleted matches Err(e) ==> is_from(e, "RegDeleteValueW"@, rc),
{
}

/// Whether an error is that of the call, with its code.
pub open spec fn is_from(e: AutostartError, call: Seq<char>, rc: u32) -> bool {
    e matches AutostartError::Registry { api, code } && api@ == call && code == rc
}

/// Autostart is enabled exactly when both the key and the value are there.
pub proof fn enabled_when_key_and_value_are_there<Q: FnOnce() -> u32>(
    open: u32,
    query: Q,
    r: Result<bool, AutostartError>,
)
    requires
        call_ensures(is_enabled::<Q>, (open, query), r),
    ensures
        open == 2 ==> r == Ok::<bool, AutostartError>(false),
        open != 0 && open != 2 ==> r is Err && is_from(r->Err_0, "RegOpenKeyExW"@, open),
        open == 0 && r == Ok::<bool, AutostartError>(true) ==> call_ensures(query, (), 0u32),
        open == 0 && r == Ok::<bool, AutostartError>(false) ==> call_ensures(query, (), 2u32),
        open == 0 && r is Err ==> exists|rc: u32| #[trigger]
            call_ensures(query, (), rc) && rc != 0 && rc != 2 && is_from(
            r->Err_0,
            "RegQueryValueExW"@,
            rc,
        ),
{
}

} // verus!
