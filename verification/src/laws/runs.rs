//! Finding and running profiles.

use crate::config::{
    guid_key, guid_key_of, is_bare_guid, is_guid, is_guid_hyphen, is_valid_guid, unbraced, Action,
    ActionKind, ActionView, Config, KindView, Profile,
};
use crate::profile::{
    enabled, execute_profile, failures, find_profile, is_first_named, ran, recorder_answer,
    ActionOutcome, ActionStatus, FnLauncher, Launcher, ProfileResult, Recorder,
};
use crate::text::{is_hex, to_upper};
use vstd::prelude::*;
use vstd::string::*;

verus! {

// ---------- running a profile ----------

proof fn enabled_is_filter(actions: Seq<ActionView>)
    ensures
        enabled(actions) == actions.filter(|a: ActionView| !a.disabled),
        actions.len() == enabled(actions).len() + actions.filter(
            |a: ActionView| a.disabled,
        ).len(),
    decreases actions.len(),
{
    reveal(Seq::filter);
    if actions.len() > 0 {
        enabled_is_filter(actions.drop_last());
    }
}

/// A run hands over exactly the actions that are not disabled, whatever they
/// do and whatever became of the others: each of them once, in the order of
/// the profile, and as it stands there. There is an outcome for each, with
/// its id and with what was answered for it, and the disabled actions are
/// counted.
pub proof fn a_run_hands_over_what_is_not_disabled<L: Launcher>(
    profile: &Profile,
    launcher: &mut L,
    r: ProfileResult,
)
    requires
        call_ensures(execute_profile::<L>, (profile, launcher), r),
    ensures
        ({
            let run = profile@.actions.filter(|a: ActionView| !a.disabled);
            let first = old(launcher).launched().len() as int;
            let answered = old(launcher).answers().len() as int;
            &&& final(launcher).launched() == old(launcher).launched() + run
            &&& final(launcher).answers().len() == answered + run.len()
            &&& final(launcher).answers().take(answered) == old(launcher).answers()
            &&& r.outcomes@.len() == run.len()
            &&& r.skipped_disabled == profile@.actions.filter(|a: ActionView| a.disabled).len()
            &&& forall|k: int|
                0 <= k < run.len() ==> {
                    let outcome = #[trigger] r.outcomes@[k];
                    let answer = final(launcher).answers()[answered + k];
                    &&& final(launcher).launched()[first + k] == run[k]
                    &&& outcome.action_id@ == run[k].id
                    &&& match outcome.status {
                        ActionStatus::Succeeded => answer is Ok,
                        ActionStatus::Failed(e) => answer == Err::<(), Seq<char>>(e@),
                    }
                    &&& old(launcher).may_answer(run[k], answer)
                }
        }),
{
    enabled_is_filter(profile@.actions);
    assert(ran(*old(launcher), profile@, r, *final(launcher)));
    let answered = old(launcher).answers().len() as int;
    assert(final(launcher).answers().take(answered) =~= old(launcher).answers());
}

/// Where nothing is disabled, a run hands over the profile's actions as they
/// are, and skips none.
pub proof fn a_run_without_disabled_actions_is_the_whole_profile<L: Launcher>(
    profile: &Profile,
    launcher: &mut L,
    r: ProfileResult,
)
    requires
        call_ensures(execute_profile::<L>, (profile, launcher), r),
        forall|i: int|
            0 <= i < profile.actions@.len() ==> !(#[trigger] profile.actions@[i]).disabled,
    ensures
        final(launcher).launched() == old(launcher).launched() + profile@.actions,
        r.outcomes@.len() == profile.actions@.len(),
        r.skipped_disabled == 0,
        forall|i: int|
            0 <= i < profile.actions@.len() ==> (#[trigger] r.outcomes@[i]).action_id@
                == profile.actions@[i].id@,
{
    assert(ran(*old(launcher), profile@, r, *final(launcher)));
    assert forall|i: int| 0 <= i < profile@.actions.len() implies !(
    #[trigger] profile@.actions[i]).disabled by {
        assert(profile@.actions[i] == profile.actions@[i]@);
    }
    all_enabled(profile@.actions);
    assert forall|i: int| 0 <= i < profile.actions@.len() implies (
    #[trigger] r.outcomes@[i]).action_id@ == profile.actions@[i].id@ by {
        assert(profile@.actions[i] == profile.actions@[i]@);
    }
}

proof fn all_enabled(actions: Seq<ActionView>)
    requires
        forall|i: int| 0 <= i < actions.len() ==> !(#[trigger] actions[i]).disabled,
    ensures
        enabled(actions) == actions,
    decreases actions.len(),
{
    if actions.len() > 0 {
        let front = actions.drop_last();
        assert forall|i: int| 0 <= i < front.len() implies !(#[trigger] front[i]).disabled by {
            assert(front[i] == actions[i]);
        }
        all_enabled(front);
        assert(!actions[actions.len() - 1].disabled);
        assert(front.push(actions.last()) =~= actions);
    }
}

/// The actions of two lists, one behind the other, are run one list behind
/// the other: no action has a say in whether another is run.
pub proof fn runs_are_made_of_their_parts(a: Seq<ActionView>, b: Seq<ActionView>)
    ensures
        enabled(a + b) == enabled(a) + enabled(b),
    decreases b.len(),
{
    if b.len() == 0 {
        assert(a + b =~= a);
        assert(enabled(a) + enabled(b) =~= enabled(a));
    } else {
        runs_are_made_of_their_parts(a, b.drop_last());
        assert((a + b).drop_last() =~= a + b.drop_last());
        assert((a + b).last() == b.last());
        assert(enabled(a + b) =~= enabled(a) + enabled(b));
    }
}

/// Failures are counted one by one, and a run succeeded when there is none.
pub proof fn failures_are_the_failed_outcomes(result: &ProfileResult, count: usize, success: bool)
    requires
        call_ensures(ProfileResult::failure_count, (result,), count),
        call_ensures(ProfileResult::is_success, (result,), success),
    ensures
        count == result.outcomes@.filter(
            |o: ActionOutcome| o.status != ActionStatus::Succeeded,
        ).len(),
        success <==> forall|i: int|
            0 <= i < result.outcomes@.len() ==> (#[trigger] result.outcomes@[i]).status
                == ActionStatus::Succeeded,
        success <==> count == 0,
{
    failures_are_filtered(result.outcomes@);
    crate::profile::success_iff_no_failures(result.outcomes@);
}

proof fn failures_are_filtered(outcomes: Seq<ActionOutcome>)
    ensures
        failures(outcomes) == outcomes.filter(
            |o: ActionOutcome| o.status != ActionStatus::Succeeded,
        ).len(),
    decreases outcomes.len(),
{
    reveal(Seq::filter);
    if outcomes.len() > 0 {
        failures_are_filtered(outcomes.drop_last());
    }
}

/// An outcome is told by its id, with a mark that says whether it failed, and
/// with the reason where it did.
pub proof fn outcomes_tell_id_and_reason(outcome: &ActionOutcome, r: String)
    requires
        call_ensures(ActionOutcome::text, (outcome,), r),
    ensures
        match outcome.status {
            ActionStatus::Succeeded => r@ == "[ok]     "@ + outcome.action_id@,
            ActionStatus::Failed(e) => r@ == "[FAILED] "@ + outcome.action_id@ + ": "@ + e@,
        },
{
}

// ---------- finding a profile ----------

/// An id without one pair of braces around it.
pub open spec fn bare(id: Seq<char>) -> Seq<char> {
    if id.len() >= 2 && id[0] == '{' && id[id.len() - 1] == '}' {
        id.subrange(1, id.len() - 1)
    } else {
        id
    }
}

/// Whether two characters are the same but for the case of an ASCII letter.
pub open spec fn same_letter(a: char, b: char) -> bool {
    ||| a == b
    ||| 'a' <= a <= 'z' && a as int == b as int + 32
    ||| 'a' <= b <= 'z' && b as int == a as int + 32
}

/// Whether two ids name the same profile: they are the same but for braces
/// and case.
pub open spec fn same_profile(a: Seq<char>, b: Seq<char>) -> bool {
    &&& bare(a).len() == bare(b).len()
    &&& forall|i: int| 0 <= i < bare(a).len() ==> same_letter(#[trigger] bare(a)[i], bare(b)[i])
}

/// 36 characters, with or without one pair of braces around them: hyphens in
/// four places and hexadecimal digits in all others.
pub open spec fn looks_like_a_guid(id: Seq<char>) -> bool {
    &&& bare(id).len() == 36
    &&& forall|i: int|
        0 <= i < 36 ==> if i == 8 || i == 13 || i == 18 || i == 23 {
            #[trigger] bare(id)[i] == '-'
        } else {
            '0' <= bare(id)[i] <= '9' || 'a' <= bare(id)[i] <= 'f' || 'A' <= bare(id)[i] <= 'F'
        }
}

pub(crate) proof fn keys_name_profiles(a: Seq<char>, b: Seq<char>)
    ensures
        guid_key_of(a) == guid_key_of(b) <==> same_profile(a, b),
{
    let x = guid_key_of(a);
    let y = guid_key_of(b);
    assert(unbraced(a) == bare(a) && unbraced(b) == bare(b));
    assert forall|i: int| 0 <= i < bare(a).len() && i < bare(b).len() implies (
    #[trigger] same_letter(bare(a)[i], bare(b)[i]) <==> x[i] == y[i]) by {
        assert(x[i] == to_upper(bare(a)[i]) && y[i] == to_upper(bare(b)[i]));
        one_case(bare(a)[i], bare(b)[i]);
    }
    if x == y {
        assert(x.len() == y.len());
    }
    if same_profile(a, b) {
        assert(x =~= y);
    }
}

proof fn one_case(a: char, b: char)
    ensures
        same_letter(a, b) <==> to_upper(a) == to_upper(b),
{
}

/// The key of an id is the id in upper case, without one pair of braces
/// around it.
pub proof fn keys_are_ids_in_upper_case(id: &str, key: String)
    requires
        call_ensures(guid_key, (id,), key),
    ensures
        key@.len() == bare(id@).len(),
        forall|i: int|
            0 <= i < key@.len() ==> #[trigger] key@[i] as int == if 'a' <= bare(id@)[i] <= 'z' {
                bare(id@)[i] as int - 32
            } else {
                bare(id@)[i] as int
            },
{
}

/// An id finds the first profile that it names, and none where it names none.
pub proof fn ids_find_the_first_profile_they_name(config: &Config, id: &str, r: Option<&Profile>)
    requires
        call_ensures(find_profile, (config, id), r),
    ensures
        match r {
            None => forall|i: int|
                0 <= i < config.profiles@.len() ==> !same_profile(
                    (#[trigger] config.profiles@[i]).id@,
                    id@,
                ),
            Some(profile) => exists|i: int|
                0 <= i < config.profiles@.len() && *profile == #[trigger] config.profiles@[i]
                    && same_profile(config.profiles@[i].id@, id@) && forall|j: int|
                    0 <= j < i ==> !same_profile((#[trigger] config.profiles@[j]).id@, id@),
        },
{
    assert forall|i: int| 0 <= i < config.profiles@.len() implies (same_profile(
        (#[trigger] config.profiles@[i]).id@,
        id@,
    ) <==> guid_key_of(config@.profiles[i].id) == guid_key_of(id@)) by {
        keys_name_profiles(config.profiles@[i].id@, id@);
        assert(config@.profiles[i] == config.profiles@[i]@);
    }
    if let Some(profile) = r {
        let i = choose|i: int| #[trigger]
            is_first_named(config@.profiles, id@, i) && *profile == config.profiles@[i];
        assert(*profile == config.profiles@[i]);
        assert forall|j: int| 0 <= j < i implies !same_profile(
            (#[trigger] config.profiles@[j]).id@,
            id@,
        ) by {
            assert(config@.profiles[j] == config.profiles@[j]@);
        }
    } else {
        assert forall|i: int| 0 <= i < config.profiles@.len() implies !same_profile(
            (#[trigger] config.profiles@[i]).id@,
            id@,
        ) by {
            assert(config@.profiles[i] == config.profiles@[i]@);
        }
    }
}

/// A GUID is told by its form alone.
pub proof fn guids_are_told_by_their_form(s: &str, r: bool)
    requires
        call_ensures(is_valid_guid, (s,), r),
    ensures
        r <==> looks_like_a_guid(s@),
{
    guid_forms(s@);
}

pub(crate) proof fn guid_forms(s: Seq<char>)
    ensures
        is_guid(s) <==> looks_like_a_guid(s),
{
    let b = bare(s);
    assert(unbraced(s) == b);
    if is_guid(s) {
        assert forall|i: int| 0 <= i < 36 implies if i == 8 || i == 13 || i == 18 || i == 23 {
            #[trigger] b[i] == '-'
        } else {
            '0' <= b[i] <= '9' || 'a' <= b[i] <= 'f' || 'A' <= b[i] <= 'F'
        } by {
            assert(is_guid_hyphen(i) || is_hex(b[i]));
        }
    }
    if looks_like_a_guid(s) {
        assert(is_bare_guid(b));
    }
}

/// The values that the laws speak of are those of the config, field by field
/// and in order.
pub proof fn views_hold_every_field(config: Config, profile: Profile, action: Action)
    ensures
        config@.version == config.version,
        config@.profiles.len() == config.profiles@.len(),
        forall|i: int|
            0 <= i < config.profiles@.len() ==> #[trigger] config@.profiles[i]
                == config.profiles@[i]@,
        profile@.id == profile.id@,
        profile@.name == profile.name@,
        profile@.actions.len() == profile.actions@.len(),
        forall|i: int|
            0 <= i < profile.actions@.len() ==> #[trigger] profile@.actions[i]
                == profile.actions@[i]@,
        action@.id == action.id@,
        action@.disabled == action.disabled,
        match (action.kind, action@.kind) {
            (
                ActionKind::Application { path: p, arguments: a, working_directory: None },
                KindView::Application { path, arguments, working_directory },
            ) => path == p@ && arguments == a@ && working_directory is None,
            (
                ActionKind::Application { path: p, arguments: a, working_directory: Some(d) },
                KindView::Application { path, arguments, working_directory },
            ) => path == p@ && arguments == a@ && working_directory == Some(d@),
            (ActionKind::Folder { path: p }, KindView::Folder { path }) => path == p@,
            (ActionKind::File { path: p }, KindView::File { path }) => path == p@,
            (ActionKind::Url { url: u }, KindView::Url { url }) => url == u@,
            (
                ActionKind::Command { shell: s, command: c },
                KindView::Command { shell, command },
            ) => shell == s && command == c@,
            (ActionKind::Wait { milliseconds: m }, KindView::Wait { milliseconds }) => {
                milliseconds == m
            },
            _ => false,
        },
{
}

// ---------- launchers ----------

/// A fresh launcher has been asked for nothing, and asks the function that it
/// was given.
pub proof fn fresh_launchers_have_no_history<F: Fn(&Action) -> Result<(), String>>(
    start: F,
    r: FnLauncher<F>,
    failing: Vec<(String, String)>,
    recorder: Recorder,
)
    requires
        call_ensures(FnLauncher::<F>::new, (start,), r),
        call_ensures(Recorder::new, (failing,), recorder),
    ensures
        r.starts_with() == start,
        r.launched().len() == 0 && r.answers().len() == 0,
        recorder.failing == failing,
        recorder.actions@.len() == 0 && recorder.results@.len() == 0,
{
    assert(recorder.launched().len() == recorder.actions@.len());
    assert(recorder.answers().len() == recorder.results@.len());
}

/// What a launcher of a function may answer for an action is what the
/// function may give for that action.
pub proof fn launchers_answer_as_their_function<F: Fn(&Action) -> Result<(), String>>(
    launcher: FnLauncher<F>,
    action: ActionView,
    answer: Result<(), Seq<char>>,
)
    requires
        launcher.may_answer(action, answer),
    ensures
        exists|a: &Action, r: Result<(), String>| #[trigger]
            call_ensures(launcher.starts_with(), (a,), r) && a@ == action && match r {
                Ok(_) => answer is Ok,
                Err(e) => answer == Err::<(), Seq<char>>(e@),
            },
{
}

/// A recorder fails exactly the ids that it was told to fail, with the reason
/// beside the first entry for the id.
pub proof fn recorders_fail_what_they_are_told_to(
    recorder: Recorder,
    action: ActionView,
    answer: Result<(), Seq<char>>,
)
    requires
        recorder.may_answer(action, answer),
    ensures
        answer is Ok <==> forall|i: int|
            0 <= i < recorder.failing@.len() ==> (#[trigger] recorder.failing@[i]).0@ != action.id,
        answer matches Err(e) ==> exists|i: int|
            0 <= i < recorder.failing@.len() && (#[trigger] recorder.failing@[i]).0@ == action.id
                && recorder.failing@[i].1@ == e && forall|j: int|
                0 <= j < i ==> (#[trigger] recorder.failing@[j]).0@ != action.id,
{
    answers_of(recorder.failing@, action.id);
}

proof fn answers_of(failing: Seq<(String, String)>, id: Seq<char>)
    ensures
        recorder_answer(failing, id) is Ok <==> forall|i: int|
            0 <= i < failing.len() ==> (#[trigger] failing[i]).0@ != id,
        recorder_answer(failing, id) matches Err(e) ==> exists|i: int|
            0 <= i < failing.len() && (#[trigger] failing[i]).0@ == id && failing[i].1@ == e
                && forall|j: int| 0 <= j < i ==> (#[trigger] failing[j]).0@ != id,
    decreases failing.len(),
{
    if failing.len() > 0 && failing[0].0@ != id {
        let rest = failing.skip(1);
        answers_of(rest, id);
        assert forall|i: int| 0 <= i < rest.len() implies #[trigger] rest[i] == failing[i + 1] by {}
        if recorder_answer(rest, id) is Ok {
            assert forall|i: int| 0 <= i < failing.len() implies (#[trigger] failing[i]).0@
                != id by {
                if i > 0 {
                    assert(rest[i - 1] == failing[i]);
                }
            }
        } else {
            let e = recorder_answer(rest, id)->Err_0;
            let i = choose|i: int|
                0 <= i < rest.len() && (#[trigger] rest[i]).0@ == id && rest[i].1@ == e && forall|
                    j: int,
                | 0 <= j < i ==> (#[trigger] rest[j]).0@ != id;
            assert(failing[i + 1] == rest[i]);
            assert forall|j: int| 0 <= j < i + 1 implies (#[trigger] failing[j]).0@ != id by {
                if j > 0 {
                    assert(rest[j - 1] == failing[j]);
                }
            }
        }
    } else if failing.len() > 0 {
        assert(failing[0].0@ == id);
    }
}

} // verus!
