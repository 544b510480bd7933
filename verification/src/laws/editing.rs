//! Editing profiles and their actions.

use crate::config::{action_views, Action, ActionKind, ActionView, CommandShell, Config, Profile};
use crate::editor::{
    action_line, fresh_action_id, id_used, ids_of, initial_fields, is_first_free, kind_index,
    numbered_id, text_views, type_label, ActionEdit, Fields, ProfileEdit,
};
use crate::gui::{
    blank_profile, delete_question, new_guid, open_config, profile_line, start_empty, GuiError,
    LaunchStart, MainModel, Opening,
};
use crate::laws::numbers::reads_as;
use crate::laws::rules::{can_be_done, can_be_run, runnable};
use crate::layout::layout_of;
use crate::number::{decimal, hex_fixed, hex_fixed_digits};
use crate::storage::{config_error_text, ConfigError};
use crate::validation::{no_action_error_iff_valid, single_profile_config_valid};
use vstd::prelude::*;
use vstd::string::*;

verus! {

// ---------- the list of actions ----------

/// Moving an action exchanges it with its neighbour: one row up or down, and
/// not past the ends. Every other action stays where it is, and so does
/// everything else in the editor.
pub proof fn moving_exchanges_neighbours(
    edit: &mut ProfileEdit,
    index: usize,
    up: bool,
    r: Option<usize>,
    i: int,
)
    requires
        call_ensures(ProfileEdit::move_action, (edit, index, up), r),
        index < edit.working.actions@.len(),
        0 <= i < edit.working.actions@.len(),
    ensures
        ({
            let before = old(edit).working.actions@;
            let after = final(edit).working.actions@;
            let other: int = if up {
                index - 1
            } else {
                index + 1
            };
            &&& after.len() == before.len()
            &&& r is Some <==> 0 <= other < before.len()
            &&& r matches Some(row) ==> row == other && after[other] == before[index as int]
                && after[index as int] == before[other]
            &&& r is None || (i != index && i != other) ==> after[i] == before[i]
            &&& final(edit).working.id == old(edit).working.id
            &&& final(edit).working.name == old(edit).working.name
            &&& final(edit).accepted == old(edit).accepted
            &&& final(edit).testing == old(edit).testing
        }),
{
}

/// An added action comes behind the others, which stay as they are.
pub proof fn added_actions_come_last(edit: &mut ProfileEdit, action: Action)
    requires
        call_ensures(ProfileEdit::push_action, (edit, action), ()),
    ensures
        final(edit).working.actions@.len() == old(edit).working.actions@.len() + 1,
        final(edit).working.actions@.last() == action,
        final(edit).working.actions@.drop_last() == old(edit).working.actions@,
        final(edit).working.id == old(edit).working.id,
        final(edit).working.name == old(edit).working.name,
        final(edit).accepted == old(edit).accepted,
        final(edit).testing == old(edit).testing,
{
}

/// An edited action takes the place of the one that was edited, and every
/// other stays as it is.
pub proof fn edited_actions_stay_in_place(
    edit: &mut ProfileEdit,
    index: usize,
    action: Action,
    i: int,
)
    requires
        call_ensures(ProfileEdit::set_action, (edit, index, action), ()),
        index < edit.working.actions@.len(),
        0 <= i < edit.working.actions@.len(),
    ensures
        final(edit).working.actions@.len() == old(edit).working.actions@.len(),
        final(edit).working.actions@[index as int] == action,
        i != index ==> final(edit).working.actions@[i] == old(edit).working.actions@[i],
        final(edit).working.id == old(edit).working.id,
        final(edit).working.name == old(edit).working.name,
        final(edit).accepted == old(edit).accepted,
        final(edit).testing == old(edit).testing,
{
}

/// Deleting takes out that action alone: those before it stay, and those
/// behind it move up.
pub proof fn deleting_takes_out_one_action(edit: &mut ProfileEdit, index: usize, i: int)
    requires
        call_ensures(ProfileEdit::delete_action, (edit, index), ()),
        index < edit.working.actions@.len(),
        0 <= i < edit.working.actions@.len() - 1,
    ensures
        final(edit).working.actions@.len() == old(edit).working.actions@.len() - 1,
        i < index ==> final(edit).working.actions@[i] == old(edit).working.actions@[i],
        i >= index ==> final(edit).working.actions@[i] == old(edit).working.actions@[i + 1],
        final(edit).working.id == old(edit).working.id,
        final(edit).working.name == old(edit).working.name,
        final(edit).accepted == old(edit).accepted,
        final(edit).testing == old(edit).testing,
{
}

/// A new action is a program that is not disabled, with nothing in it but an
/// id of its own: `action-` and the least number from one on whose id is free.
/// The ids of the profile are the ones that are taken.
pub proof fn new_actions_have_the_first_free_id(edit: &ProfileEdit, r: ActionEdit)
    requires
        call_ensures(ProfileEdit::add_action, (edit,), r),
    ensures
        !r.accepted,
        !r.action.disabled,
        r.action.kind matches ActionKind::Application { path, arguments, working_directory }
            && path@.len() == 0 && arguments@.len() == 0 && working_directory is None,
        r.other_ids@.len() == edit.working.actions@.len(),
        forall|i: int|
            0 <= i < r.other_ids@.len() ==> (#[trigger] r.other_ids@[i])@
                == edit.working.actions@[i].id@,
        exists|n: nat| #[trigger]
            is_the_first_free(edit.working.actions@, n) && r.action.id@ == "action-"@ + decimal(n),
{
    let views = edit.working@.actions;
    let n = choose|n: nat| #[trigger] is_first_free(views, n) && r.action@.id == numbered_id(n);
    assert(is_first_free(views, n));
    first_free_is(edit.working.actions@, n);
    assert(text_views(r.other_ids@) == ids_of(views));
    assert(text_views(r.other_ids@).len() == r.other_ids@.len());
    assert forall|i: int| 0 <= i < r.other_ids@.len() implies (#[trigger] r.other_ids@[i])@
        == edit.working.actions@[i].id@ by {
        assert(text_views(r.other_ids@)[i] == ids_of(views)[i]);
        assert(views[i] == edit.working.actions@[i]@);
    }
}

/// Whether no action has the id with this number, and for each lower number
/// from one on there is an action with that id.
pub open spec fn is_the_first_free(actions: Seq<Action>, n: nat) -> bool {
    &&& n >= 1
    &&& forall|i: int|
        0 <= i < actions.len() ==> (#[trigger] actions[i]).id@ != "action-"@ + decimal(n)
    &&& forall|k: nat| 1 <= k < n ==> #[trigger] is_taken(actions, k)
}

/// Whether an action has the id with this number.
pub open spec fn is_taken(actions: Seq<Action>, k: nat) -> bool {
    exists|i: int| 0 <= i < actions.len() && (#[trigger] actions[i]).id@ == "action-"@ + decimal(k)
}

proof fn first_free_is(actions: Seq<Action>, n: nat)
    requires
        is_first_free(action_views(actions), n),
    ensures
        is_the_first_free(actions, n),
{
    let views = action_views(actions);
    assert forall|i: int| 0 <= i < actions.len() implies (#[trigger] actions[i]).id@ != "action-"@
        + decimal(n) by {
        assert(views[i].id == actions[i].id@);
        assert(!id_used(views, numbered_id(n)));
    }
    assert forall|k: nat| 1 <= k < n implies #[trigger] is_taken(actions, k) by {
        assert(id_used(views, numbered_id(k)));
        let i = choose|i: int| 0 <= i < views.len() && (#[trigger] views[i]).id == numbered_id(k);
        assert(actions[i].id@ == views[i].id);
    }
}

/// A fresh id is the first free one.
pub proof fn fresh_ids_are_the_first_free(actions: &Vec<Action>, r: String)
    requires
        call_ensures(fresh_action_id, (actions,), r),
    ensures
        exists|n: nat| #[trigger]
            is_the_first_free(actions@, n) && r@ == "action-"@ + decimal(n),
{
    let n = choose|n: nat| #[trigger]
        is_first_free(action_views(actions@), n) && r@ == numbered_id(n);
    first_free_is(actions@, n);
}

/// The editor opens on the action as it is, and only the ids of the others
/// are taken.
pub proof fn the_editor_opens_on_the_action(
    edit: &ProfileEdit,
    index: usize,
    r: ActionEdit,
    i: int,
)
    requires
        call_ensures(ProfileEdit::edit_action, (edit, index), r),
        index < edit.working.actions@.len(),
        0 <= i < edit.working.actions@.len() - 1,
    ensures
        !r.accepted,
        r.action@ == edit.working.actions@[index as int]@,
        r.other_ids@.len() == edit.working.actions@.len() - 1,
        i < index ==> r.other_ids@[i]@ == edit.working.actions@[i].id@,
        i >= index ==> r.other_ids@[i]@ == edit.working.actions@[i + 1].id@,
{
    let ids = ids_of(edit.working@.actions);
    assert(text_views(r.other_ids@) == ids.remove(index as int));
    assert(text_views(r.other_ids@).len() == r.other_ids@.len());
    assert(text_views(r.other_ids@)[i] == ids.remove(index as int)[i]);
    assert(edit.working@.actions[i] == edit.working.actions@[i]@);
    assert(edit.working@.actions[i + 1] == edit.working.actions@[i + 1]@);
    assert(edit.working@.actions[index as int] == edit.working.actions@[index as int]@);
}

// ---------- an action and its fields ----------

/// Each kind has its row of the type combo, with its own name there, and the
/// first field of that row is the text of the kind.
pub proof fn kinds_have_their_rows(kind: &ActionKind, index: usize, label: &'static str)
    requires
        call_ensures(kind_index, (kind,), index),
        call_ensures(type_label, (index,), label),
    ensures
        index < 6,
        match kind {
            ActionKind::Application { .. } => label@ == "application"@ && layout_of(index).first
                == Some("パス"@),
            ActionKind::Folder { .. } => label@ == "folder"@ && layout_of(index).first == Some(
                "フォルダのパス"@,
            ),
            ActionKind::File { .. } => label@ == "file"@ && layout_of(index).first == Some(
                "ファイルのパス"@,
            ),
            ActionKind::Url { .. } => label@ == "url"@ && layout_of(index).first == Some("URL"@),
            ActionKind::Command { .. } => label@ == "command"@ && layout_of(index).first == Some(
                "コマンド"@,
            ),
            ActionKind::Wait { .. } => label@ == "wait"@ && layout_of(index).first == Some(
                "待機時間 (ms)"@,
            ),
        },
{
}

/// The fields hold the action, each text in the field that is its own, and
/// nothing stands in the fields that its kind has no use for.
pub proof fn fields_hold_the_action(action: &Action, r: Fields)
    requires
        call_ensures(initial_fields, (action,), r),
    ensures
        r.id@ == action.id@,
        r.disabled == action.disabled,
        match action.kind {
            ActionKind::Application { path, arguments, working_directory } => {
                &&& r.type_index == 0 && r.first@ == path@ && r.second@ == arguments@
                &&& working_directory is None ==> r.third@.len() == 0
                &&& working_directory matches Some(dir) ==> r.third@ == dir@
            },
            ActionKind::Folder { path } => r.type_index == 1 && r.first@ == path@,
            ActionKind::File { path } => r.type_index == 2 && r.first@ == path@,
            ActionKind::Url { url } => r.type_index == 3 && r.first@ == url@,
            ActionKind::Command { shell, command } => {
                &&& r.type_index == 4 && r.first@ == command@
                &&& shell is Cmd ==> r.shell_index == 0
                &&& shell is PowerShell ==> r.shell_index == 1
            },
            ActionKind::Wait { milliseconds } => {
                r.type_index == 5 && r.first@ == decimal(milliseconds as nat)
            },
        },
        !(action.kind is Application) ==> r.second@.len() == 0 && r.third@.len() == 0,
        !(action.kind is Command) ==> r.shell_index == 0,
{
}

/// The kind that fields spell is that of their row, with the texts as they
/// stand in the fields. An empty directory is none, and a wait is the number
/// that the field holds, which is all that can be wrong.
pub proof fn fields_spell_their_kind(fields: &Fields, r: Result<ActionKind, String>)
    requires
        call_ensures(Fields::build_kind, (fields,), r),
    ensures
        match r {
            Ok(ActionKind::Application { path, arguments, working_directory }) => {
                &&& fields.type_index == 0
                &&& path@ == fields.first@ && arguments@ == fields.second@
                &&& working_directory is None <==> fields.third@.len() == 0
                &&& working_directory matches Some(dir) ==> dir@ == fields.third@
            },
            Ok(ActionKind::Folder { path }) => fields.type_index == 1 && path@ == fields.first@,
            Ok(ActionKind::File { path }) => fields.type_index == 2 && path@ == fields.first@,
            Ok(ActionKind::Url { url }) => fields.type_index == 3 && url@ == fields.first@,
            Ok(ActionKind::Command { shell, command }) => {
                &&& fields.type_index == 4 && command@ == fields.first@
                &&& shell is PowerShell <==> fields.shell_index == 1
            },
            Ok(ActionKind::Wait { milliseconds }) => {
                fields.type_index == 5 && reads_as(fields.first@, milliseconds)
            },
            Err(m) => {
                ||| fields.type_index > 5 && m@ == "不明な種類です。"@
                ||| fields.type_index == 5 && m@
                    == "待機時間はミリ秒の数値で入力してください。"@ && forall|n: u64|
                    !#[trigger] reads_as(fields.first@, n)
            },
        },
{
    let k = fields.kind();
    if fields.type_index == 0 {
        assert(r is Ok);
        assert(k->Ok_0 is Application);
    }
    crate::laws::numbers::reading(fields.first@);
}

/// The line of an action names its id, its kind and what it is about, and
/// marks it when it is disabled.
pub proof fn lines_name_the_action(action: &Action, r: String, name: Seq<char>, what: Seq<char>)
    requires
        call_ensures(action_line, (action,), r),
        match action.kind {
            ActionKind::Application { path, .. } => name == "application: "@ && what == path@,
            ActionKind::Folder { path } => name == "folder: "@ && what == path@,
            ActionKind::File { path } => name == "file: "@ && what == path@,
            ActionKind::Url { url } => name == "url: "@ && what == url@,
            ActionKind::Command { shell: CommandShell::Cmd, command } => {
                &&& name == "command("@ + "cmd"@ + "): "@
                &&& command@.len() <= 40 ==> what == command@
                &&& command@.len() > 40 ==> what == command@.take(40)
            },
            ActionKind::Command { shell: CommandShell::PowerShell, command } => {
                &&& name == "command("@ + "powershell"@ + "): "@
                &&& command@.len() <= 40 ==> what == command@
                &&& command@.len() > 40 ==> what == command@.take(40)
            },
            ActionKind::Wait { milliseconds } => {
                name == "wait: "@ && what == decimal(milliseconds as nat) + "ms"@
            },
        },
    ensures
        !action.disabled ==> r@ == action.id@ + "  ["@ + (name + what) + "]"@,
        action.disabled ==> r@ == action.id@ + "  ["@ + (name + what) + "]"@ + "  (無効)"@,
{
    if let ActionKind::Wait { milliseconds } = action.kind {
        assert("wait: "@ + decimal(milliseconds as nat) + "ms"@ =~= name + what);
    }
}

// ---------- accepting ----------

/// OK takes over exactly the fields of an action that has an id of its own
/// and is valid, and leaves everything as it is where the fields are refused.
pub proof fn valid_fields_are_taken_over(
    edit: &mut ActionEdit,
    fields: &Fields,
    r: Result<(), String>,
    spelled: Result<ActionKind, String>,
)
    requires
        call_ensures(ActionEdit::accept, (edit, fields), r),
        call_ensures(Fields::build_kind, (fields,), spelled),
    ensures
        r is Ok <==> {
            &&& fields.id@.len() > 0
            &&& forall|i: int|
                0 <= i < old(edit).other_ids@.len() ==> (#[trigger] old(edit).other_ids@[i])@
                    != fields.id@
            &&& spelled matches Ok(kind) && can_be_done(kind)
        },
        r is Ok ==> {
            &&& final(edit).accepted
            &&& final(edit).action.id@ == fields.id@
            &&& final(edit).action.disabled == fields.disabled
            &&& final(edit).action.kind@ == spelled->Ok_0@
        },
        r is Err ==> *final(edit) == *old(edit),
        final(edit).other_ids == old(edit).other_ids,
        fields.id@.len() == 0 ==> r->Err_0@ == "ID を入力してください。"@,
        fields.id@.len() > 0 && (exists|i: int|
            0 <= i < old(edit).other_ids@.len() && (#[trigger] old(edit).other_ids@[i])@
                == fields.id@) ==> r->Err_0@ == "ID '"@ + fields.id@
            + "' はこのプロファイル内で使用済みです。"@,
{
    let ids = text_views(edit.other_ids@);
    assert(ids.contains(fields.id@) <==> exists|i: int|
        0 <= i < edit.other_ids@.len() && (#[trigger] edit.other_ids@[i])@ == fields.id@) by {
        if ids.contains(fields.id@) {
            let i = ids.index_of(fields.id@);
            assert(edit.other_ids@[i]@ == fields.id@);
        }
        if exists|i: int| 0 <= i < edit.other_ids@.len() && (#[trigger] edit.other_ids@[i])@
            == fields.id@ {
            let i = choose|i: int|
                0 <= i < edit.other_ids@.len() && (#[trigger] edit.other_ids@[i])@ == fields.id@;
            assert(ids[i] == fields.id@);
        }
    }
    if let Ok(kind) = spelled {
        let view = ActionView { id: fields.id@, disabled: fields.disabled, kind: kind@ };
        no_action_error_iff_valid(view);
        crate::laws::rules::doable_kind(kind);
    }
}

/// An editor gives back what it holds when that was accepted, and nothing
/// else.
pub proof fn only_accepted_edits_come_back(
    action: ActionEdit,
    profile: ProfileEdit,
    a: Option<Action>,
    p: Option<Profile>,
)
    requires
        call_ensures(ActionEdit::finish, (action,), a),
        call_ensures(ProfileEdit::finish, (profile,), p),
    ensures
        a is Some <==> action.accepted,
        a is Some ==> a->0 == action.action,
        p is Some <==> profile.accepted,
        p is Some ==> p->0 == profile.working,
{
}

/// OK takes over the name, and accepts exactly the profiles whose own rules
/// hold; an empty name is said to be empty.
pub proof fn valid_profiles_are_accepted(
    edit: &mut ProfileEdit,
    name: String,
    r: Result<(), String>,
)
    requires
        call_ensures(ProfileEdit::accept, (edit, name), r),
    ensures
        final(edit).working.name == name,
        final(edit).working.id == old(edit).working.id,
        final(edit).working.actions == old(edit).working.actions,
        final(edit).testing == old(edit).testing,
        r is Ok <==> can_be_run(final(edit).working),
        r is Ok ==> final(edit).accepted,
        r is Err ==> final(edit).accepted == old(edit).accepted,
        name@.len() == 0 ==> r->Err_0@ == "名前を入力してください。"@,
{
    let working = final(edit).working;
    runnable(working);
    single_profile_config_valid(working@);
    if name@.len() == 0 {
        assert(!can_be_run(working));
    }
}

/// A test launch runs what the editor holds, one at a time, and changes
/// nothing of it.
pub proof fn tests_run_one_at_a_time(
    profile: Profile,
    opened: ProfileEdit,
    edit: &mut ProfileEdit,
    done: &mut ProfileEdit,
    r: Option<Profile>,
)
    requires
        call_ensures(ProfileEdit::new, (profile,), opened),
        call_ensures(ProfileEdit::start_test, (edit,), r),
        call_ensures(ProfileEdit::test_done, (done,), ()),
    ensures
        opened.working == profile && !opened.accepted && !opened.testing,
        r is Some <==> !old(edit).testing,
        r matches Some(p) ==> p@ == old(edit).working@,
        final(edit).testing,
        final(edit).working == old(edit).working,
        final(edit).accepted == old(edit).accepted,
        !final(done).testing,
        final(done).working == old(done).working,
        final(done).accepted == old(done).accepted,
{
}

// ---------- the list of profiles ----------

/// An added profile comes behind the others, which stay as they are.
pub proof fn added_profiles_come_last(model: &MainModel, profile: Profile, r: Config, i: int)
    requires
        call_ensures(MainModel::with_added, (model, profile), r),
        0 <= i < model.config.profiles@.len(),
    ensures
        r.version == model.config.version,
        r.profiles@.len() == model.config.profiles@.len() + 1,
        r.profiles@[i]@ == model.config.profiles@[i]@,
        r.profiles@.last()@ == profile@,
{
    let n = model.config.profiles@.len() as int;
    assert(model.config@.profiles.len() == n);
    assert(r@.profiles.len() == r.profiles@.len());
    assert(r@.profiles[i] == r.profiles@[i]@);
    assert(model.config@.profiles[i] == model.config.profiles@[i]@);
    assert(r@.profiles[n] == r.profiles@[n]@);
}

/// An edited profile takes the place of the one that was edited, and every
/// other stays as it is.
pub proof fn edited_profiles_stay_in_place(
    model: &MainModel,
    index: usize,
    profile: Profile,
    r: Config,
    i: int,
)
    requires
        call_ensures(MainModel::with_edited, (model, index, profile), r),
        index < model.config.profiles@.len(),
        0 <= i < model.config.profiles@.len(),
    ensures
        r.version == model.config.version,
        r.profiles@.len() == model.config.profiles@.len(),
        r.profiles@[index as int]@ == profile@,
        i != index ==> r.profiles@[i]@ == model.config.profiles@[i]@,
{
    assert(model.config@.profiles.len() == model.config.profiles@.len());
    assert(r@.profiles.len() == r.profiles@.len());
    assert(r@.profiles[i] == r.profiles@[i]@);
    assert(r@.profiles[index as int] == r.profiles@[index as int]@);
    assert(model.config@.profiles[i] == model.config.profiles@[i]@);
}

/// Deleting takes out that profile alone: those before it stay, and those
/// behind it move up.
pub proof fn deleting_takes_out_one_profile(model: &MainModel, index: usize, r: Config, i: int)
    requires
        call_ensures(MainModel::with_deleted, (model, index), r),
        index < model.config.profiles@.len(),
        0 <= i < model.config.profiles@.len() - 1,
    ensures
        r.version == model.config.version,
        r.profiles@.len() == model.config.profiles@.len() - 1,
        i < index ==> r.profiles@[i]@ == model.config.profiles@[i]@,
        i >= index ==> r.profiles@[i]@ == model.config.profiles@[i + 1]@,
{
    assert(model.config@.profiles.len() == model.config.profiles@.len());
    assert(r@.profiles.len() == r.profiles@.len());
    assert(r@.profiles[i] == r.profiles@[i]@);
    assert(model.config@.profiles[i] == model.config.profiles@[i]@);
    assert(model.config@.profiles[i + 1] == model.config.profiles@[i + 1]@);
}

/// The selected profile is run, by its own id, unless a run is going on;
/// and a run is over when a worker says so.
pub proof fn the_selected_profile_is_run(
    model: &mut MainModel,
    selected: Option<usize>,
    r: LaunchStart,
    done: &mut MainModel,
    wparam: usize,
    lparam: isize,
    over: bool,
)
    requires
        call_ensures(MainModel::launch_selected, (model, selected), r),
        selected matches Some(i) ==> i < model.config.profiles@.len(),
        call_ensures(MainModel::launch_done, (done, wparam, lparam), over),
    ensures
        r is Busy <==> old(model).running,
        r matches LaunchStart::Busy { text } ==> text@ == "実行中です。"@,
        r is Nothing <==> !old(model).running && selected is None,
        r matches LaunchStart::Run { id } ==> id@
            == old(model).config.profiles@[selected->0 as int].id@,
        final(model).running <==> old(model).running || selected is Some,
        final(model).config == old(model).config,
        final(model).config_path == old(model).config_path,
        final(model).config_mtime == old(model).config_mtime,
        over <==> wparam == 0x504C_4452 && lparam != 0,
        final(done).running <==> old(done).running && !over,
        final(done).config == old(done).config,
        final(done).config_path == old(done).config_path,
        final(done).config_mtime == old(done).config_mtime,
{
}

/// Overwriting is asked about exactly when the file is not the one that was
/// loaded. What was saved is taken over with its time; where saving failed,
/// nothing changes.
pub proof fn saved_configs_are_taken_over(
    asked: &MainModel,
    disk: Option<i128>,
    question: Option<&'static str>,
    model: &mut MainModel,
    candidate: Config,
    outcome: Result<(), ConfigError>,
    modified: Option<i128>,
    r: Result<(), String>,
)
    requires
        call_ensures(MainModel::save_question, (asked, disk), question),
        call_ensures(MainModel::saved, (model, candidate, outcome, modified), r),
    ensures
        question is None <==> disk == asked.config_mtime,
        question matches Some(text) ==> text@
            == "設定ファイルが外部で変更されています。上書きしますか?"@,
        outcome matches Err(e) ==> r->Err_0@ == "config の保存に失敗しました: "@ + config_error_text(
            e,
        ),
        r is Ok <==> outcome is Ok,
        outcome is Ok ==> final(model).config == candidate && final(model).config_mtime == modified,
        outcome is Err ==> final(model).config == old(model).config && final(model).config_mtime
            == old(model).config_mtime,
        final(model).config_path == old(model).config_path,
        final(model).running == old(model).running,
{
}

/// A config that was loaded is opened as it is. One that is not there is
/// asked about, and any other failure is shown.
pub proof fn configs_open_as_loaded(
    path: &str,
    loaded: Result<Config, ConfigError>,
    not_found: bool,
    r: Opening,
    agreed: bool,
    error: ConfigError,
    empty: Result<Config, GuiError>,
)
    requires
        call_ensures(open_config, (path, loaded, not_found), r),
        call_ensures(start_empty, (agreed, error), empty),
    ensures
        match r {
            Opening::Ready { config } => loaded == Ok::<Config, ConfigError>(config),
            Opening::Ask { question, error } => {
                &&& loaded == Err::<Config, ConfigError>(error)
                &&& error is Io && not_found
                &&& question@ == "設定ファイルが見つかりません。\r\n"@ + path@
                    + "\r\n\r\n新規作成しますか?"@
            },
            Opening::Refuse { text, error } => {
                &&& loaded == Err::<Config, ConfigError>(error)
                &&& !(error is Io && not_found)
                &&& text@ == "設定ファイルを読み込めません。\r\n"@ + config_error_text(error)
            },
        },
        empty is Ok <==> agreed,
        empty matches Ok(config) ==> config.version == 1 && config.profiles@.len() == 0,
        empty matches Err(e) ==> e == GuiError::Config(error),
{
    if let Ok(config) = empty {
        assert(config@.profiles.len() == config.profiles@.len());
    }
}

/// What the list and the question show of a profile: its name and how many
/// actions it has.
pub proof fn profiles_are_shown_by_name(profile: &Profile, line: String, question: String)
    requires
        call_ensures(profile_line, (profile,), line),
        call_ensures(delete_question, (profile,), question),
    ensures
        line@ == profile.name@ + "  ("@ + decimal(profile.actions@.len()) + " actions)"@,
        question@ == "プロファイル '"@ + profile.name@ + "' を削除しますか?"@,
{
}

// ---------- new profiles ----------

/// A new id is the parts of the GUID that the system made, in upper-case
/// hexadecimal digits between hyphens and braces, each in its place.
pub proof fn new_ids_spell_the_guid(
    hr: i32,
    code: u32,
    data1: u32,
    data2: u16,
    data3: u16,
    data4: &[u8; 8],
    r: Result<String, GuiError>,
)
    requires
        call_ensures(new_guid, (hr, code, data1, data2, data3, data4), r),
    ensures
        r is Ok <==> hr >= 0,
        r matches Ok(t) ==> {
            &&& t@.len() == 38
            &&& t@[0] == '{' && t@[37] == '}'
            &&& t@[9] == '-' && t@[14] == '-' && t@[19] == '-' && t@[24] == '-'
            &&& t@.subrange(1, 9) == hex_fixed(data1 as nat, 8)
            &&& t@.subrange(10, 14) == hex_fixed(data2 as nat, 4)
            &&& t@.subrange(15, 19) == hex_fixed(data3 as nat, 4)
            &&& t@.subrange(20, 22) == hex_fixed(data4@[0] as nat, 2)
            &&& t@.subrange(22, 24) == hex_fixed(data4@[1] as nat, 2)
            &&& t@.subrange(25, 27) == hex_fixed(data4@[2] as nat, 2)
            &&& t@.subrange(27, 29) == hex_fixed(data4@[3] as nat, 2)
            &&& t@.subrange(29, 31) == hex_fixed(data4@[4] as nat, 2)
            &&& t@.subrange(31, 33) == hex_fixed(data4@[5] as nat, 2)
            &&& t@.subrange(33, 35) == hex_fixed(data4@[6] as nat, 2)
            &&& t@.subrange(35, 37) == hex_fixed(data4@[7] as nat, 2)
        },
        r matches Err(e) ==> e is Win32 && e->code == code,
{
    reveal_strlit("{");
    reveal_strlit("-");
    reveal_strlit("}");
    hex_fixed_digits(data1 as nat, 8);
    hex_fixed_digits(data2 as nat, 4);
    hex_fixed_digits(data3 as nat, 4);
    assert forall|i: int| 0 <= i < 8 implies hex_fixed(#[trigger] data4@[i] as nat, 2).len()
        == 2 by {
        hex_fixed_digits(data4@[i] as nat, 2);
    }
    if let Ok(t) = r {
        let b = |i: int| hex_fixed(data4@[i] as nat, 2);
        assert(t@.subrange(1, 9) =~= hex_fixed(data1 as nat, 8));
        assert(t@.subrange(10, 14) =~= hex_fixed(data2 as nat, 4));
        assert(t@.subrange(15, 19) =~= hex_fixed(data3 as nat, 4));
        assert(t@.subrange(20, 22) =~= b(0));
        assert(t@.subrange(22, 24) =~= b(1));
        assert(t@.subrange(25, 27) =~= b(2));
        assert(t@.subrange(27, 29) =~= b(3));
        assert(t@.subrange(29, 31) =~= b(4));
        assert(t@.subrange(31, 33) =~= b(5));
        assert(t@.subrange(33, 35) =~= b(6));
        assert(t@.subrange(35, 37) =~= b(7));
    }
}

/// A new profile has the id that it is given, a name and no actions.
pub proof fn new_profiles_are_blank(guid: String, r: Profile)
    requires
        call_ensures(blank_profile, (guid,), r),
    ensures
        r.id == guid,
        r.name@ == "新しいプロファイル"@,
        r.actions@.len() == 0,
{
}

} // verus!
