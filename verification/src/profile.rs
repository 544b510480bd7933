//! Profile lookup and execution.

use crate::config::{
    action_views, guid_key, guid_key_of, unbraced, Action, ActionView, Config, ConfigView, Profile,
    ProfileView,
};
use crate::text::{lower, to_lower, to_upper, upper};
use crate::validation::valid_config;
use vstd::prelude::*;
use vstd::string::*;

verus! {

// ---------- lookup ----------

/// Whether the profile at index `i` is the first one that `id` names.
pub open spec fn is_first_named(profiles: Seq<ProfileView>, id: Seq<char>, i: int) -> bool {
    &&& 0 <= i < profiles.len()
    &&& guid_key_of(profiles[i].id) == guid_key_of(id)
    &&& forall|j: int| 0 <= j < i ==> guid_key_of(#[trigger] profiles[j].id) != guid_key_of(id)
}

/// Whether some profile is named by `id`.
pub open spec fn is_named(profiles: Seq<ProfileView>, id: Seq<char>) -> bool {
    exists|i: int|
        0 <= i < profiles.len() && guid_key_of(#[trigger] profiles[i].id) == guid_key_of(id)
}

/// Finds a profile by GUID. Comparison ignores case and surrounding braces
/// so `--profile {GUID}` and `--profile GUID` address the same profile. The
/// normalization lives in `config::guid_key` so lookup and config
/// validation cannot disagree about which strings name the same profile.
pub fn find_profile<'a>(config: &'a Config, id: &str) -> (r: Option<&'a Profile>)
    ensures
        match r {
            Some(p) => exists|i: int| #[trigger]
                is_first_named(config@.profiles, id@, i) && *p == config.profiles@[i],
            None => !is_named(config@.profiles, id@),
        },
{
    let key = guid_key(id);
    let mut i: usize = 0;
    while i < config.profiles.len()
        invariant
            i <= config.profiles@.len(),
            key@ == guid_key_of(id@),
            forall|j: int|
                0 <= j < i ==> guid_key_of(#[trigger] config@.profiles[j].id) != guid_key_of(id@),
        decreases config.profiles@.len() - i,
    {
        let profile = &config.profiles[i];
        assert(config@.profiles[i as int] == profile@);
        if guid_key(profile.id.as_str()) == key {
            assert(is_first_named(config@.profiles, id@, i as int));
            return Some(profile);
        }
        i += 1;
    }
    None
}

/// Braces and letter case do not change which profile a text names: a bare
/// text with braces around it, and a text in the other case, have the same
/// key.
pub proof fn braces_and_case_do_not_matter(s: Seq<char>)
    ensures
        unbraced(s) == s ==> guid_key_of(seq!['{'] + s + seq!['}']) == guid_key_of(s),
        guid_key_of(lower(s)) == guid_key_of(s),
        guid_key_of(upper(s)) == guid_key_of(s),
{
    if unbraced(s) == s {
        let braced = seq!['{'] + s + seq!['}'];
        assert(braced.subrange(1, braced.len() - 1) =~= s);
    }
    assert forall|i: int| 0 <= i < s.len() implies to_upper(to_lower(#[trigger] s[i])) == to_upper(
        s[i],
    ) && to_upper(to_upper(s[i])) == to_upper(s[i]) by {
        case_of_case(s[i]);
    }
    assert forall|i: int| 0 <= i < s.len() implies (lower(s)[i] == '{' <==> s[i] == '{') && (
    lower(s)[i] == '}' <==> s[i] == '}') && (upper(s)[i] == '{' <==> s[i] == '{') && (upper(s)[i]
        == '}' <==> s[i] == '}') by {
        case_of_case(s[i]);
    }
    if s.len() > 0 {
        assert(lower(s)[0] == '{' <==> s[0] == '{');
        assert(lower(s)[s.len() - 1] == '}' <==> s[s.len() - 1] == '}');
        assert(upper(s)[0] == '{' <==> s[0] == '{');
        assert(upper(s)[s.len() - 1] == '}' <==> s[s.len() - 1] == '}');
    }
    assert(upper(unbraced(lower(s))) =~= upper(unbraced(s)));
    assert(upper(unbraced(upper(s))) =~= upper(unbraced(s)));
}

proof fn case_of_case(c: char)
    ensures
        to_upper(to_lower(c)) == to_upper(c),
        to_upper(to_upper(c)) == to_upper(c),
        to_lower(c) == '{' <==> c == '{',
        to_lower(c) == '}' <==> c == '}',
        to_upper(c) == '{' <==> c == '{',
        to_upper(c) == '}' <==> c == '}',
{
}

/// No profile of a valid config is hidden by another: looking up the id of
/// any of them finds that very profile.
pub proof fn every_profile_is_reachable(config: ConfigView, i: int)
    requires
        valid_config(config),
        0 <= i < config.profiles.len(),
    ensures
        is_first_named(config.profiles, config.profiles[i].id, i),
        forall|j: int|
            is_first_named(config.profiles, config.profiles[i].id, j) ==> j == i,
{
}

// ---------- execution ----------

#[derive(Debug, PartialEq, Eq)]
pub enum ActionStatus {
    Succeeded,
    Failed(String),
}

#[derive(Debug)]
pub struct ActionOutcome {
    pub action_id: String,
    pub status: ActionStatus,
}

/// The text that reports an outcome.
pub open spec fn outcome_text(outcome: ActionOutcome) -> Seq<char> {
    match outcome.status {
        ActionStatus::Succeeded => "[ok]     "@ + outcome.action_id@,
        ActionStatus::Failed(e) => "[FAILED] "@ + outcome.action_id@ + ": "@ + e@,
    }
}

impl ActionOutcome {
    pub fn text(&self) -> (r: String)
        ensures
            r@ == outcome_text(*self),
    {
        match &self.status {
            ActionStatus::Succeeded => "[ok]     ".to_owned().concat(self.action_id.as_str()),
            ActionStatus::Failed(e) => {
                "[FAILED] ".to_owned().concat(self.action_id.as_str()).concat(": ").concat(
                    e.as_str(),
                )
            },
        }
    }
}

#[derive(Debug)]
pub struct ProfileResult {
    pub outcomes: Vec<ActionOutcome>,
    pub skipped_disabled: usize,
}

/// How many of the outcomes are failures.
pub open spec fn failures(outcomes: Seq<ActionOutcome>) -> nat
    decreases outcomes.len(),
{
    if outcomes.len() == 0 {
        0
    } else {
        failures(outcomes.drop_last()) + if outcomes.last().status is Failed {
            1nat
        } else {
            0nat
        }
    }
}

/// Whether every outcome is a success.
pub open spec fn all_succeeded(outcomes: Seq<ActionOutcome>) -> bool {
    forall|i: int| 0 <= i < outcomes.len() ==> (#[trigger] outcomes[i]).status is Succeeded
}

impl ProfileResult {
    /// True when every enabled action succeeded. Skipped disabled actions do
    /// not count as failures.
    pub fn is_success(&self) -> (r: bool)
        ensures
            r == all_succeeded(self.outcomes@),
    {
        let mut i: usize = 0;
        while i < self.outcomes.len()
            invariant
                i <= self.outcomes@.len(),
                forall|j: int| 0 <= j < i ==> (#[trigger] self.outcomes@[j]).status is Succeeded,
            decreases self.outcomes@.len() - i,
        {
            if let ActionStatus::Failed(_) = self.outcomes[i].status {
                return false;
            }
            i += 1;
        }
        true
    }

    pub fn failure_count(&self) -> (r: usize)
        ensures
            r == failures(self.outcomes@),
    {
        let mut count: usize = 0;
        let mut i: usize = 0;
        assert(self.outcomes@.take(0) =~= Seq::<ActionOutcome>::empty());
        while i < self.outcomes.len()
            invariant
                i <= self.outcomes@.len(),
                count <= i,
                count == failures(self.outcomes@.take(i as int)),
            decreases self.outcomes@.len() - i,
        {
            assert(self.outcomes@.take(i + 1).drop_last() =~= self.outcomes@.take(i as int));
            if let ActionStatus::Failed(_) = self.outcomes[i].status {
                count += 1;
            }
            i += 1;
        }
        assert(self.outcomes@.take(i as int) =~= self.outcomes@);
        count
    }
}

/// A run succeeded exactly when it has no failures, and never has more
/// failures than outcomes.
pub proof fn success_iff_no_failures(outcomes: Seq<ActionOutcome>)
    ensures
        all_succeeded(outcomes) <==> failures(outcomes) == 0,
        failures(outcomes) <= outcomes.len(),
    decreases outcomes.len(),
{
    if outcomes.len() > 0 {
        success_iff_no_failures(outcomes.drop_last());
        if all_succeeded(outcomes) {
            assert(outcomes.last().status is Succeeded);
            assert forall|i: int| 0 <= i < outcomes.drop_last().len() implies (
            #[trigger] outcomes.drop_last()[i]).status is Succeeded by {
                assert(outcomes.drop_last()[i] == outcomes[i]);
            }
        }
        if failures(outcomes) == 0 {
            assert forall|i: int| 0 <= i < outcomes.len() implies (
            #[trigger] outcomes[i]).status is Succeeded by {
                if i < outcomes.len() - 1 {
                    assert(outcomes.drop_last()[i] == outcomes[i]);
                }
            }
        }
    }
}

/// The actions that are not disabled, in order.
pub open spec fn enabled(actions: Seq<ActionView>) -> Seq<ActionView>
    decreases actions.len(),
{
    if actions.len() == 0 {
        Seq::empty()
    } else if actions.last().disabled {
        enabled(actions.drop_last())
    } else {
        enabled(actions.drop_last()).push(actions.last())
    }
}

/// What launching an action gave, as values: nothing, or why it failed.
pub open spec fn answer_of(launched: Result<(), String>) -> Result<(), Seq<char>> {
    match launched {
        Ok(()) => Ok(()),
        Err(e) => Err(e@),
    }
}

/// What launching an action gave, as its status tells it.
pub open spec fn told_by(status: ActionStatus) -> Result<(), Seq<char>> {
    match status {
        ActionStatus::Succeeded => Ok(()),
        ActionStatus::Failed(e) => Err(e@),
    }
}

/// What launching each action gave, as the outcomes tell it.
pub open spec fn answers_told(outcomes: Seq<ActionOutcome>) -> Seq<Result<(), Seq<char>>> {
    Seq::new(outcomes.len(), |k: int| told_by(outcomes[k].status))
}

/// What starts actions for a profile run. It is handed enabled actions only,
/// and each call adds the action and the answer to its history.
pub trait Launcher {
    /// The actions that it was asked to launch so far, in order.
    spec fn launched(&self) -> Seq<ActionView>;

    /// The answers that it gave to these calls.
    spec fn answers(&self) -> Seq<Result<(), Seq<char>>>;

    /// Whether it may answer so when it is asked to launch the action.
    spec fn may_answer(&self, action: ActionView, answer: Result<(), Seq<char>>) -> bool;

    /// Launches an action, or says why it could not.
    fn launch(&mut self, action: &Action) -> (r: Result<(), String>)
        requires
            !action.disabled,
        ensures
            final(self).launched() == old(self).launched().push(action@),
            final(self).answers() == old(self).answers().push(answer_of(r)),
            old(self).may_answer(action@, answer_of(r)),
            forall|a: ActionView, x: Result<(), Seq<char>>|
                final(self).may_answer(a, x) == #[trigger] old(self).may_answer(a, x),
    ;
}

/// Whether a function may give this answer for an action.
pub open spec fn function_may_answer<F: Fn(&Action) -> Result<(), String>>(
    start: F,
    action: ActionView,
    answer: Result<(), Seq<char>>,
) -> bool {
    exists|a: &Action, r: Result<(), String>| #[trigger]
        call_ensures(start, (a,), r) && a@ == action && answer_of(r) == answer
}

/// A launcher that asks a function to start each action and gives its answer.
///
/// The contract ties each answer to the function and the action. A function
/// value has no history of its own, so that it is asked once for each launch
/// is left to the body of `launch`, which calls it in one place.
pub struct FnLauncher<F: Fn(&Action) -> Result<(), String>> {
    start: F,
    launched: Ghost<Seq<ActionView>>,
    answers: Ghost<Seq<Result<(), Seq<char>>>>,
}

impl<F: Fn(&Action) -> Result<(), String>> FnLauncher<F> {
    /// The function takes every enabled action.
    #[verifier::type_invariant]
    spec fn takes_enabled(self) -> bool {
        forall|a: &Action| !a.disabled ==> call_requires(self.start, (a,))
    }

    /// The function that is asked.
    pub closed spec fn starts_with(self) -> F {
        self.start
    }

    pub fn new(start: F) -> (r: FnLauncher<F>)
        requires
            forall|a: &Action| !a.disabled ==> call_requires(start, (a,)),
        ensures
            r.starts_with() == start,
            r.launched() == Seq::<ActionView>::empty(),
            r.answers() == Seq::<Result<(), Seq<char>>>::empty(),
    {
        FnLauncher { start, launched: Ghost(Seq::empty()), answers: Ghost(Seq::empty()) }
    }
}

impl<F: Fn(&Action) -> Result<(), String>> Launcher for FnLauncher<F> {
    closed spec fn launched(&self) -> Seq<ActionView> {
        self.launched@
    }

    closed spec fn answers(&self) -> Seq<Result<(), Seq<char>>> {
        self.answers@
    }

    open spec fn may_answer(&self, action: ActionView, answer: Result<(), Seq<char>>) -> bool {
        function_may_answer(self.starts_with(), action, answer)
    }

    fn launch(&mut self, action: &Action) -> (r: Result<(), String>)
        ensures
            final(self).starts_with() == old(self).starts_with(),
            call_ensures(old(self).starts_with(), (action,), r),
    {
        proof {
            use_type_invariant(&*self);
        }
        let r = (self.start)(action);
        assert(call_ensures(self.start, (action,), r));
        self.launched = Ghost(self.launched@.push(action@));
        self.answers = Ghost(self.answers@.push(answer_of(r)));
        r
    }
}

/// A launcher that starts nothing. It keeps every action that it is handed,
/// and fails those whose ids it was told to fail.
#[derive(Debug)]
pub struct Recorder {
    /// Ids that fail, each with the reason to give.
    pub failing: Vec<(String, String)>,
    pub actions: Vec<Action>,
    pub results: Vec<Result<(), String>>,
}

/// What a recorder answers for an id: the reason beside the first entry with
/// that id.
pub open spec fn recorder_answer(failing: Seq<(String, String)>, id: Seq<char>) -> Result<
    (),
    Seq<char>,
>
    decreases failing.len(),
{
    if failing.len() == 0 {
        Ok(())
    } else if failing[0].0@ == id {
        Err(failing[0].1@)
    } else {
        recorder_answer(failing.skip(1), id)
    }
}

impl Recorder {
    pub fn new(failing: Vec<(String, String)>) -> (r: Recorder)
        ensures
            r.failing == failing,
            r.launched() == Seq::<ActionView>::empty(),
            r.answers() == Seq::<Result<(), Seq<char>>>::empty(),
    {
        let r = Recorder { failing, actions: Vec::new(), results: Vec::new() };
        assert(r.launched() =~= Seq::<ActionView>::empty());
        assert(r.answers() =~= Seq::<Result<(), Seq<char>>>::empty());
        r
    }

    fn answer(&self, id: &String) -> (r: Result<(), String>)
        ensures
            answer_of(r) == recorder_answer(self.failing@, id@),
    {
        let mut i: usize = 0;
        assert(self.failing@.skip(0) =~= self.failing@);
        while i < self.failing.len()
            invariant
                i <= self.failing@.len(),
                recorder_answer(self.failing@, id@) == recorder_answer(
                    self.failing@.skip(i as int),
                    id@,
                ),
            decreases self.failing@.len() - i,
        {
            if self.failing[i].0 == *id {
                return Err(self.failing[i].1.clone());
            }
            assert(self.failing@.skip(i as int).skip(1) =~= self.failing@.skip(i + 1));
            i += 1;
        }
        Ok(())
    }
}

impl Launcher for Recorder {
    open spec fn launched(&self) -> Seq<ActionView> {
        action_views(self.actions@)
    }

    open spec fn answers(&self) -> Seq<Result<(), Seq<char>>> {
        Seq::new(self.results@.len(), |k: int| answer_of(self.results@[k]))
    }

    open spec fn may_answer(&self, action: ActionView, answer: Result<(), Seq<char>>) -> bool {
        answer == recorder_answer(self.failing@, action.id)
    }

    fn launch(&mut self, action: &Action) -> (r: Result<(), String>)
        ensures
            final(self).failing == old(self).failing,
            answer_of(r) == recorder_answer(old(self).failing@, action.id@),
    {
        let r = self.answer(&action.id);
        let kept: Result<(), String> = match &r {
            Ok(()) => Ok(()),
            Err(e) => Err(e.clone()),
        };
        self.actions.push(action.clone());
        self.results.push(kept);
        assert(self.launched() =~= old(self).launched().push(action@));
        assert(self.answers() =~= old(self).answers().push(answer_of(r)));
        r
    }
}

/// A run of a profile: the launcher is handed each enabled action once, in
/// order, and nothing else. There is one outcome for each of them, with its
/// id and what the launcher answered, which is an answer that it may give for
/// that action, and the others are counted.
pub open spec fn ran<L: Launcher>(
    before: L,
    profile: ProfileView,
    r: ProfileResult,
    after: L,
) -> bool {
    let run = enabled(profile.actions);
    &&& after.launched() == before.launched() + run
    &&& after.answers() == before.answers() + answers_told(r.outcomes@)
    &&& r.outcomes@.len() == run.len()
    &&& forall|k: int|
        0 <= k < run.len() ==> (#[trigger] r.outcomes@[k]).action_id@ == run[k].id
            && before.may_answer(run[k], told_by(r.outcomes@[k].status))
    &&& forall|a: ActionView, x: Result<(), Seq<char>>|
        #![trigger after.may_answer(a, x)]
        #![trigger before.may_answer(a, x)]
        after.may_answer(a, x) == before.may_answer(a, x)
    &&& r.skipped_disabled == profile.actions.len() - run.len()
}

/// Runs the profile's enabled actions in config order.
///
/// A failing action never stops later actions; every result is recorded so
/// the caller can report partial failure. The launcher is injected so this
/// ordering/skipping/aggregation logic stands apart from launching real
/// processes.
pub fn execute_profile<L: Launcher>(profile: &Profile, launcher: &mut L) -> (r: ProfileResult)
    ensures
        ran(*old(launcher), profile@, r, *final(launcher)),
{
    let mut outcomes: Vec<ActionOutcome> = Vec::new();
    let mut skipped: usize = 0;
    let mut i: usize = 0;
    let ghost actions = profile@.actions;
    assert(actions.take(0) =~= Seq::<ActionView>::empty());
    assert(launcher.launched() =~= old(launcher).launched() + enabled(actions.take(0)));
    assert(launcher.answers() =~= old(launcher).answers() + answers_told(outcomes@));
    while i < profile.actions.len()
        invariant
            i <= profile.actions@.len(),
            actions == action_views(profile.actions@),
            launcher.launched() == old(launcher).launched() + enabled(actions.take(i as int)),
            launcher.answers() == old(launcher).answers() + answers_told(outcomes@),
            outcomes@.len() == enabled(actions.take(i as int)).len(),
            forall|k: int|
                0 <= k < outcomes@.len() ==> (#[trigger] outcomes@[k]).action_id@ == enabled(
                    actions.take(i as int),
                )[k].id && old(launcher).may_answer(
                    enabled(actions.take(i as int))[k],
                    told_by(outcomes@[k].status),
                ),
            forall|a: ActionView, x: Result<(), Seq<char>>|
                launcher.may_answer(a, x) == #[trigger] old(launcher).may_answer(a, x),
            skipped == i - outcomes@.len(),
        decreases profile.actions@.len() - i,
    {
        let action = &profile.actions[i];
        assert(actions.take(i + 1).drop_last() =~= actions.take(i as int));
        assert(actions.take(i + 1).last() == action@);
        if action.disabled {
            skipped += 1;
        } else {
            let ghost before = outcomes@;
            let launched = launcher.launch(action);
            let ghost answer = answer_of(launched);
            let status = match launched {
                Ok(()) => ActionStatus::Succeeded,
                Err(e) => ActionStatus::Failed(e),
            };
            outcomes.push(ActionOutcome { action_id: action.id.clone(), status });
            assert(answers_told(outcomes@) =~= answers_told(before).push(answer));
            assert(launcher.answers() =~= old(launcher).answers() + answers_told(outcomes@));
            assert(launcher.launched() =~= old(launcher).launched() + enabled(
                actions.take(i + 1),
            ));
        }
        i += 1;
    }
    assert(actions.take(i as int) =~= actions);
    ProfileResult { outcomes, skipped_disabled: skipped }
}

/// With a function for the launcher, each outcome is an answer of that
/// function for the action that the outcome is about.
pub proof fn outcomes_are_the_answers_of_the_function<F: Fn(&Action) -> Result<(), String>>(
    before: FnLauncher<F>,
    profile: ProfileView,
    r: ProfileResult,
    after: FnLauncher<F>,
    k: int,
)
    requires
        ran(before, profile, r, after),
        0 <= k < enabled(profile.actions).len(),
    ensures
        r.outcomes@[k].action_id@ == enabled(profile.actions)[k].id,
        function_may_answer(
            before.starts_with(),
            enabled(profile.actions)[k],
            told_by(r.outcomes@[k].status),
        ),
{
    assert(before.may_answer(enabled(profile.actions)[k], told_by(r.outcomes@[k].status)));
}

/// A profile whose actions are all disabled launches nothing.
pub proof fn nothing_enabled<L: Launcher>(
    before: L,
    profile: ProfileView,
    r: ProfileResult,
    after: L,
)
    requires
        ran(before, profile, r, after),
        forall|i: int| 0 <= i < profile.actions.len() ==> (#[trigger] profile.actions[i]).disabled,
    ensures
        after.launched() == before.launched(),
        all_succeeded(r.outcomes@),
        r.skipped_disabled == profile.actions.len(),
{
    none_enabled(profile.actions);
    assert(after.launched() =~= before.launched());
}

proof fn none_enabled(actions: Seq<ActionView>)
    requires
        forall|i: int| 0 <= i < actions.len() ==> (#[trigger] actions[i]).disabled,
    ensures
        enabled(actions).len() == 0,
    decreases actions.len(),
{
    if actions.len() > 0 {
        assert forall|i: int| 0 <= i < actions.drop_last().len() implies (
        #[trigger] actions.drop_last()[i]).disabled by {
            assert(actions.drop_last()[i] == actions[i]);
        }
        none_enabled(actions.drop_last());
    }
}

/// A failing action stops none of the others: whatever the launcher answers,
/// two runs of a profile hand over the same actions and have outcomes of the
/// same ids.
pub proof fn failures_stop_nothing<L: Launcher, M: Launcher>(
    profile: ProfileView,
    before: L,
    r: ProfileResult,
    after: L,
    other_before: M,
    other_r: ProfileResult,
    other_after: M,
)
    requires
        ran(before, profile, r, after),
        ran(other_before, profile, other_r, other_after),
    ensures
        after.launched().skip(before.launched().len() as int) == other_after.launched().skip(
            other_before.launched().len() as int,
        ),
        r.outcomes@.len() == other_r.outcomes@.len(),
        forall|k: int|
            0 <= k < r.outcomes@.len() ==> (#[trigger] r.outcomes@[k]).action_id@
                == other_r.outcomes@[k].action_id@,
        r.skipped_disabled == other_r.skipped_disabled,
{
    let run = enabled(profile.actions);
    assert(after.launched().skip(before.launched().len() as int) =~= run);
    assert(other_after.launched().skip(other_before.launched().len() as int) =~= run);
}

} // verus!
