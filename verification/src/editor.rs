//! The profile editor and the action editor.
//!
//! What the dialogs hold, and what their buttons do to it. The windows, and
//! what stands in their controls, are the caller's.

use crate::config::{
    action_views, Action, ActionKind, ActionView, CommandShell, Config, ConfigView, KindView,
    Profile, ProfileView, CURRENT_CONFIG_VERSION,
};
use crate::number::{
    decimal, decimal_denotes, decimal_is_injective, decimal_text, long_decimal_text,
    number_in, number_in_decimal, read_number,
};
use crate::text::{
    chars_of, is_digit, same_text, slice_of, string_of, trim, trim_chars, trim_keeps,
};
use crate::validation::{
    action_error, config_error, no_action_error_iff_valid, single_profile_config_valid,
    valid_action, valid_kind, valid_profile, validate_action,
};
use vstd::prelude::*;
use vstd::string::*;

verus! {

// ---------- action lines ----------

/// The name of a shell, as the config spells it.
pub open spec fn shell_name(shell: CommandShell) -> Seq<char> {
    match shell {
        CommandShell::Cmd => "cmd"@,
        CommandShell::PowerShell => "powershell"@,
    }
}

/// The first `n` characters of a text, or all of them.
pub open spec fn first_chars(s: Seq<char>, n: int) -> Seq<char> {
    if s.len() <= n {
        s
    } else {
        s.take(n)
    }
}

/// What an action does, in short.
pub open spec fn kind_summary(kind: KindView) -> Seq<char> {
    match kind {
        KindView::Application { path, .. } => "application: "@ + path,
        KindView::Folder { path } => "folder: "@ + path,
        KindView::File { path } => "file: "@ + path,
        KindView::Url { url } => "url: "@ + url,
        KindView::Command { shell, command } => {
            "command("@ + shell_name(shell) + "): "@ + first_chars(command, 40)
        },
        KindView::Wait { milliseconds } => "wait: "@ + decimal(milliseconds as nat) + "ms"@,
    }
}

/// The line of an action in the list box.
pub open spec fn line_of(action: ActionView) -> Seq<char> {
    let line = action.id + "  ["@ + kind_summary(action.kind) + "]"@;
    if action.disabled {
        line + "  (無効)"@
    } else {
        line
    }
}

fn summarize(kind: &ActionKind) -> (r: String)
    ensures
        r@ == kind_summary(kind@),
{
    match kind {
        ActionKind::Application { path, arguments, working_directory } => {
            "application: ".to_owned().concat(path.as_str())
        },
        ActionKind::Folder { path } => "folder: ".to_owned().concat(path.as_str()),
        ActionKind::File { path } => "file: ".to_owned().concat(path.as_str()),
        ActionKind::Url { url } => "url: ".to_owned().concat(url.as_str()),
        ActionKind::Command { shell, command } => {
            let shell = match shell {
                CommandShell::Cmd => "cmd",
                CommandShell::PowerShell => "powershell",
            };
            let v = chars_of(command.as_str());
            let n: usize = if v.len() <= 40 {
                v.len()
            } else {
                40
            };
            let cmd = string_of(&slice_of(&v, 0, n));
            assert(cmd@ =~= first_chars(command@, 40));
            "command(".to_owned().concat(shell).concat("): ").concat(cmd.as_str())
        },
        ActionKind::Wait { milliseconds } => {
            "wait: ".to_owned().concat(decimal_text(*milliseconds).as_str()).concat("ms")
        },
    }
}

/// Short one-line summary shown in the action list box.
pub fn action_line(action: &Action) -> (r: String)
    ensures
        r@ == line_of(action@),
{
    let line = action.id.clone().concat("  [").concat(summarize(&action.kind).as_str()).concat(
        "]",
    );
    if action.disabled {
        line.concat("  (無効)")
    } else {
        line
    }
}

// ---------- ids of new actions ----------

/// The `n`th id that new actions are given.
pub open spec fn numbered_id(n: nat) -> Seq<char> {
    "action-"@ + decimal(n)
}

/// Whether an action of the list has the id.
pub open spec fn id_used(actions: Seq<ActionView>, id: Seq<char>) -> bool {
    exists|i: int| 0 <= i < actions.len() && (#[trigger] actions[i]).id == id
}

/// Whether `n` is the first number whose id no action of the list has.
pub open spec fn is_first_free(actions: Seq<ActionView>, n: nat) -> bool {
    &&& n >= 1
    &&& !id_used(actions, numbered_id(n))
    &&& forall|k: nat| 1 <= k < n ==> #[trigger] id_used(actions, numbered_id(k))
}

proof fn numbered_id_is_injective(a: nat, b: nat)
    requires
        numbered_id(a) == numbered_id(b),
    ensures
        a == b,
{
    let n = "action-"@.len() as int;
    assert(numbered_id(a).skip(n) =~= decimal(a));
    assert(numbered_id(b).skip(n) =~= decimal(b));
    decimal_is_injective(a, b);
}

/// No list uses up more numbers than it has actions.
proof fn used_numbers(actions: Seq<ActionView>, m: nat)
    requires
        forall|k: nat| 1 <= k <= m ==> #[trigger] id_used(actions, numbered_id(k)),
    ensures
        m <= actions.len(),
    decreases m,
{
    if m > 0 {
        assert(id_used(actions, numbered_id(m)));
        let i = choose|i: int|
            0 <= i < actions.len() && (#[trigger] actions[i]).id == numbered_id(m);
        let rest = actions.remove(i);
        assert forall|k: nat| 1 <= k <= m - 1 implies #[trigger] id_used(rest, numbered_id(k)) by {
            assert(id_used(actions, numbered_id(k)));
            let j = choose|j: int|
                0 <= j < actions.len() && (#[trigger] actions[j]).id == numbered_id(k);
            if j == i {
                numbered_id_is_injective(k, m);
            } else if j < i {
                assert(rest[j] == actions[j]);
            } else {
                assert(rest[j - 1] == actions[j]);
            }
        }
        used_numbers(rest, (m - 1) as nat);
    }
}

fn has_id(actions: &Vec<Action>, id: &str) -> (r: bool)
    ensures
        r == id_used(action_views(actions@), id@),
{
    let mut i: usize = 0;
    while i < actions.len()
        invariant
            i <= actions@.len(),
            forall|j: int|
                0 <= j < i ==> (#[trigger] action_views(actions@)[j]).id != id@,
        decreases actions@.len() - i,
    {
        assert(action_views(actions@)[i as int] == actions@[i as int]@);
        if same_text(actions[i].id.as_str(), id) {
            return true;
        }
        i += 1;
    }
    false
}

/// The next free `action-N` id inside the working profile.
pub fn fresh_action_id(actions: &Vec<Action>) -> (r: String)
    ensures
        exists|n: nat| #[trigger]
            is_first_free(action_views(actions@), n) && r@ == numbered_id(n),
{
    let count: usize = actions.len();
    let mut n: u128 = 1;
    let ghost views = action_views(actions@);
    let mut id = "action-".to_owned().concat(long_decimal_text(n).as_str());
    while has_id(actions, id.as_str())
        invariant
            views == action_views(actions@),
            count == actions@.len(),
            1 <= n <= count + 1,
            id@ == numbered_id(n as nat),
            forall|k: nat| 1 <= k < n ==> #[trigger] id_used(views, numbered_id(k)),
        decreases count + 1 - n,
    {
        proof {
            used_numbers(views, n as nat);
        }
        n += 1;
        id = "action-".to_owned().concat(long_decimal_text(n).as_str());
    }
    assert(is_first_free(views, n as nat));
    id
}

// ---------- the fields of an action ----------

/// What stands in the controls of the action editor.
#[derive(Debug)]
pub struct Fields {
    pub id: String,
    /// The selected row of the type combo, past its end when none is.
    pub type_index: usize,
    pub disabled: bool,
    pub first: String,
    pub second: String,
    pub third: String,
    /// The selected row of the shell combo, negative when none is.
    pub shell_index: isize,
}

/// The row of a kind in the type combo.
pub open spec fn type_index_of(kind: KindView) -> usize {
    match kind {
        KindView::Application { .. } => 0,
        KindView::Folder { .. } => 1,
        KindView::File { .. } => 2,
        KindView::Url { .. } => 3,
        KindView::Command { .. } => 4,
        KindView::Wait { .. } => 5,
    }
}

/// The types in combo order.
pub const TYPE_COUNT: usize = 6;

pub open spec fn type_label_of(type_index: usize) -> Seq<char> {
    if type_index == 0 {
        "application"@
    } else if type_index == 1 {
        "folder"@
    } else if type_index == 2 {
        "file"@
    } else if type_index == 3 {
        "url"@
    } else if type_index == 4 {
        "command"@
    } else {
        "wait"@
    }
}

/// The name of a type in the combo.
pub fn type_label(type_index: usize) -> (r: &'static str)
    requires
        type_index < TYPE_COUNT,
    ensures
        r@ == type_label_of(type_index),
{
    match type_index {
        0 => "application",
        1 => "folder",
        2 => "file",
        3 => "url",
        4 => "command",
        _ => "wait",
    }
}

pub fn kind_index(kind: &ActionKind) -> (r: usize)
    ensures
        r == type_index_of(kind@),
{
    match kind {
        ActionKind::Application { .. } => 0,
        ActionKind::Folder { .. } => 1,
        ActionKind::File { .. } => 2,
        ActionKind::Url { .. } => 3,
        ActionKind::Command { .. } => 4,
        ActionKind::Wait { .. } => 5,
    }
}

/// The shell in a row of the shell combo; the first where none is selected.
pub open spec fn shell_at(shell_index: isize) -> CommandShell {
    if shell_index == 1 {
        CommandShell::PowerShell
    } else {
        CommandShell::Cmd
    }
}

/// The kind that the fields spell, or what is wrong with them.
pub open spec fn built_kind(
    type_index: usize,
    first: Seq<char>,
    second: Seq<char>,
    third: Seq<char>,
    shell_index: isize,
) -> Result<KindView, Seq<char>> {
    if type_index == 0 {
        Ok(
            KindView::Application {
                path: first,
                arguments: second,
                working_directory: if third.len() == 0 {
                    None
                } else {
                    Some(third)
                },
            },
        )
    } else if type_index == 1 {
        Ok(KindView::Folder { path: first })
    } else if type_index == 2 {
        Ok(KindView::File { path: first })
    } else if type_index == 3 {
        Ok(KindView::Url { url: first })
    } else if type_index == 4 {
        Ok(KindView::Command { shell: shell_at(shell_index), command: first })
    } else if type_index == 5 {
        match number_in(trim(first)) {
            Some(milliseconds) => Ok(KindView::Wait { milliseconds }),
            None => Err("待機時間はミリ秒の数値で入力してください。"@),
        }
    } else {
        Err("不明な種類です。"@)
    }
}

impl Fields {
    /// The kind that the fields spell, or what is wrong with them.
    pub open spec fn kind(self) -> Result<KindView, Seq<char>> {
        built_kind(
            self.type_index,
            self.first@,
            self.second@,
            self.third@,
            self.shell_index,
        )
    }

    /// Builds the kind of the selected type from the fields.
    pub fn build_kind(&self) -> (r: Result<ActionKind, String>)
        ensures
            match r {
                Ok(kind) => self.kind() == Ok::<KindView, Seq<char>>(kind@),
                Err(m) => self.kind() == Err::<KindView, Seq<char>>(m@),
            },
    {
        match self.type_index {
            0 => {
                let dir = self.third.clone();
                let working_directory = if chars_of(dir.as_str()).len() == 0 {
                    None
                } else {
                    Some(dir)
                };
                Ok(
                    ActionKind::Application {
                        path: self.first.clone(),
                        arguments: self.second.clone(),
                        working_directory,
                    },
                )
            },
            1 => Ok(ActionKind::Folder { path: self.first.clone() }),
            2 => Ok(ActionKind::File { path: self.first.clone() }),
            3 => Ok(ActionKind::Url { url: self.first.clone() }),
            4 => {
                let shell = if self.shell_index == 1 {
                    CommandShell::PowerShell
                } else {
                    CommandShell::Cmd
                };
                Ok(ActionKind::Command { shell, command: self.first.clone() })
            },
            5 => match read_number(&trim_chars(&chars_of(self.first.as_str()))) {
                Some(milliseconds) => Ok(ActionKind::Wait { milliseconds }),
                None => Err("待機時間はミリ秒の数値で入力してください。".to_owned()),
            },
            _ => Err("不明な種類です。".to_owned()),
        }
    }
}

/// The text of the first field for a kind.
pub open spec fn first_field(kind: KindView) -> Seq<char> {
    match kind {
        KindView::Application { path, .. } => path,
        KindView::Folder { path } => path,
        KindView::File { path } => path,
        KindView::Url { url } => url,
        KindView::Command { command, .. } => command,
        KindView::Wait { milliseconds } => decimal(milliseconds as nat),
    }
}

pub open spec fn second_field(kind: KindView) -> Seq<char> {
    match kind {
        KindView::Application { arguments, .. } => arguments,
        _ => Seq::empty(),
    }
}

pub open spec fn third_field(kind: KindView) -> Seq<char> {
    match kind {
        KindView::Application { working_directory: Some(dir), .. } => dir,
        _ => Seq::empty(),
    }
}

pub open spec fn shell_row(kind: KindView) -> isize {
    match kind {
        KindView::Command { shell: CommandShell::PowerShell, .. } => 1isize,
        _ => 0isize,
    }
}

/// Whether the fields show the action.
pub open spec fn shows(fields: Fields, action: ActionView) -> bool {
    &&& fields.id@ == action.id
    &&& fields.type_index == type_index_of(action.kind)
    &&& fields.disabled == action.disabled
    &&& fields.first@ == first_field(action.kind)
    &&& fields.second@ == second_field(action.kind)
    &&& fields.third@ == third_field(action.kind)
    &&& fields.shell_index == shell_row(action.kind)
}

/// What the controls hold when the editor opens on an action.
pub fn initial_fields(action: &Action) -> (r: Fields)
    ensures
        shows(r, action@),
{
    let mut second = String::new();
    let mut third = String::new();
    let mut shell_index: isize = 0;
    let first = match &action.kind {
        ActionKind::Application { path, arguments, working_directory } => {
            second = arguments.clone();
            if let Some(dir) = working_directory {
                third = dir.clone();
            }
            path.clone()
        },
        ActionKind::Folder { path } => path.clone(),
        ActionKind::File { path } => path.clone(),
        ActionKind::Url { url } => url.clone(),
        ActionKind::Command { shell, command } => {
            if let CommandShell::PowerShell = shell {
                shell_index = 1;
            }
            command.clone()
        },
        ActionKind::Wait { milliseconds } => decimal_text(*milliseconds),
    };
    Fields {
        id: action.id.clone(),
        type_index: kind_index(&action.kind),
        disabled: action.disabled,
        first,
        second,
        third,
        shell_index,
    }
}

/// Opening the editor on a valid action and accepting what it shows gives
/// the same action back.
pub proof fn untouched_fields_spell_the_action(kind: KindView)
    requires
        valid_kind(kind),
    ensures
        built_kind(
            type_index_of(kind),
            first_field(kind),
            second_field(kind),
            third_field(kind),
            shell_row(kind),
        ) == Ok::<KindView, Seq<char>>(kind),
{
    if let KindView::Wait { milliseconds } = kind {
        let d = decimal(milliseconds as nat);
        decimal_denotes(milliseconds as nat);
        assert(is_digit(d[0]));
        assert(is_digit(d[d.len() - 1]));
        trim_keeps(d);
        number_in_decimal(milliseconds);
    }
}

// ---------- the action editor ----------

pub open spec fn text_views(texts: Seq<String>) -> Seq<Seq<char>> {
    Seq::new(texts.len(), |i: int| texts[i]@)
}

/// The ids of the actions, in order.
pub open spec fn ids_of(actions: Seq<ActionView>) -> Seq<Seq<char>> {
    Seq::new(actions.len(), |i: int| actions[i].id)
}

pub struct ActionEdit {
    pub accepted: bool,
    /// Action being built; handed back to the profile editor on OK.
    pub action: Action,
    /// Ids already used by other actions in the same profile.
    pub other_ids: Vec<String>,
}

/// What is wrong with the fields of an action: an empty id, an id that is
/// taken, fields that spell no kind, or an action that breaks a rule, in
/// this order.
pub open spec fn fields_error(fields: Fields, other_ids: Seq<Seq<char>>) -> Option<Seq<char>> {
    if fields.id@.len() == 0 {
        Some("ID を入力してください。"@)
    } else if other_ids.contains(fields.id@) {
        Some("ID '"@ + fields.id@ + "' はこのプロファイル内で使用済みです。"@)
    } else {
        match fields.kind() {
            Err(m) => Some(m),
            Ok(kind) => match action_error(
                ActionView { id: fields.id@, disabled: fields.disabled, kind },
            ) {
                Some(m) => Some("保存できません: "@ + m),
                None => None,
            },
        }
    }
}

fn holds_text(texts: &Vec<String>, text: &str) -> (r: bool)
    ensures
        r == text_views(texts@).contains(text@),
{
    let mut i: usize = 0;
    while i < texts.len()
        invariant
            i <= texts@.len(),
            forall|j: int| 0 <= j < i ==> #[trigger] text_views(texts@)[j] != text@,
        decreases texts@.len() - i,
    {
        assert(text_views(texts@)[i as int] == texts@[i as int]@);
        if same_text(texts[i].as_str(), text) {
            return true;
        }
        i += 1;
    }
    false
}

impl ActionEdit {
    /// Takes over what the fields spell, or says what is wrong with it and
    /// leaves everything as it is.
    pub fn accept(&mut self, fields: &Fields) -> (r: Result<(), String>)
        ensures
            final(self).other_ids == old(self).other_ids,
            match fields_error(*fields, text_views(old(self).other_ids@)) {
                Some(m) => {
                    &&& r matches Err(text) && text@ == m
                    &&& *final(self) == *old(self)
                },
                None => {
                    &&& r is Ok
                    &&& final(self).accepted
                    &&& final(self).action@.id == fields.id@
                    &&& final(self).action@.disabled == fields.disabled
                    &&& fields.kind() == Ok::<KindView, Seq<char>>(final(self).action@.kind)
                },
            },
    {
        if chars_of(fields.id.as_str()).len() == 0 {
            return Err("ID を入力してください。".to_owned());
        }
        if holds_text(&self.other_ids, fields.id.as_str()) {
            return Err(
                "ID '".to_owned().concat(fields.id.as_str()).concat(
                    "' はこのプロファイル内で使用済みです。",
                ),
            );
        }
        let kind = match fields.build_kind() {
            Ok(kind) => kind,
            Err(m) => return Err(m),
        };
        let action = Action { id: fields.id.clone(), disabled: fields.disabled, kind };
        // Per-action rules (empty path, bad URL scheme, wait bound).
        if let Err(m) = validate_action(&action) {
            return Err("保存できません: ".to_owned().concat(m.as_str()));
        }
        self.action = action;
        self.accepted = true;
        Ok(())
    }

    /// The result of the editor: the action on OK.
    pub fn finish(self) -> (r: Option<Action>)
        ensures
            r == if self.accepted {
                Some(self.action)
            } else {
                None
            },
    {
        if self.accepted {
            Some(self.action)
        } else {
            None
        }
    }
}

// ---------- the profile editor ----------

pub struct ProfileEdit {
    pub working: Profile,
    pub accepted: bool,
    /// Set while a test launch worker is in flight so a second click does
    /// not spawn a duplicate run.
    pub testing: bool,
}

/// Whether the editor is the same but for its actions.
pub open spec fn actions_change(
    before: ProfileEdit,
    after: ProfileEdit,
    actions: Seq<Action>,
) -> bool {
    &&& after.working.id == before.working.id
    &&& after.working.name == before.working.name
    &&& after.accepted == before.accepted
    &&& after.testing == before.testing
    &&& after.working.actions@ == actions
}

/// The row that a row moves to, if it can move.
pub open spec fn moved_row(i: int, up: bool, rows: int) -> Option<int> {
    if up {
        if i > 0 {
            Some(i - 1)
        } else {
            None
        }
    } else if i + 1 < rows {
        Some(i + 1)
    } else {
        None
    }
}

/// The list with two entries exchanged.
pub open spec fn swapped<A>(s: Seq<A>, i: int, j: int) -> Seq<A> {
    s.update(i, s[j]).update(j, s[i])
}

/// What is wrong with a profile on OK: an empty name, or a rule that it
/// breaks.
pub open spec fn profile_error(profile: ProfileView) -> Option<Seq<char>> {
    if profile.name.len() == 0 {
        Some("名前を入力してください。"@)
    } else {
        match config_error(
            ConfigView { version: CURRENT_CONFIG_VERSION, profiles: seq![profile] },
        ) {
            Some(m) => Some("保存できません: "@ + m),
            None => None,
        }
    }
}

impl ProfileEdit {
    pub fn new(profile: Profile) -> (r: Self)
        ensures
            r == (ProfileEdit { working: profile, accepted: false, testing: false }),
    {
        ProfileEdit { working: profile, accepted: false, testing: false }
    }

    /// The ids of the actions but the one at `but`.
    fn ids(&self, but: Option<usize>) -> (r: Vec<String>)
        ensures
            match but {
                Some(k) if k < self.working.actions@.len() => text_views(r@) == ids_of(
                    self.working@.actions,
                ).remove(k as int),
                _ => text_views(r@) == ids_of(self.working@.actions),
            },
    {
        let mut ids: Vec<String> = Vec::new();
        let mut i: usize = 0;
        let ghost all = ids_of(self.working@.actions);
        while i < self.working.actions.len()
            invariant
                all == ids_of(self.working@.actions),
                i <= self.working.actions@.len(),
                text_views(ids@) == all.take(i as int),
            decreases self.working.actions@.len() - i,
        {
            let ghost before = ids@;
            assert(self.working@.actions[i as int] == self.working.actions@[i as int]@);
            ids.push(self.working.actions[i].id.clone());
            assert(text_views(ids@) =~= text_views(before).push(all[i as int]));
            assert(all.take(i + 1) =~= all.take(i as int).push(all[i as int]));
            i += 1;
        }
        assert(all.take(i as int) =~= all);
        if let Some(k) = but {
            if k < ids.len() {
                let ghost before = ids@;
                let _ = ids.remove(k);
                assert(text_views(ids@) =~= text_views(before).remove(k as int));
            }
        }
        ids
    }

    /// Opens the action editor on a new action: an application with a fresh
    /// id and nothing else.
    pub fn add_action(&self) -> (r: ActionEdit)
        ensures
            !r.accepted,
            exists|n: nat| #[trigger]
                is_first_free(self.working@.actions, n) && r.action@ == (ActionView {
                    id: numbered_id(n),
                    disabled: false,
                    kind: KindView::Application {
                        path: Seq::empty(),
                        arguments: Seq::empty(),
                        working_directory: None,
                    },
                }),
            text_views(r.other_ids@) == ids_of(self.working@.actions),
    {
        let id = fresh_action_id(&self.working.actions);
        let ghost n = choose|n: nat| #[trigger]
            is_first_free(self.working@.actions, n) && id@ == numbered_id(n);
        let action = Action {
            id,
            disabled: false,
            kind: ActionKind::Application {
                path: String::new(),
                arguments: String::new(),
                working_directory: None,
            },
        };
        assert(is_first_free(self.working@.actions, n));
        let ghost empty = Seq::<char>::empty();
        assert(action@.kind == (KindView::Application {
            path: empty,
            arguments: empty,
            working_directory: None,
        }));
        ActionEdit { accepted: false, action, other_ids: self.ids(None) }
    }

    /// Opens the action editor on the action at `index`. Its own id is not
    /// among those that are taken.
    pub fn edit_action(&self, index: usize) -> (r: ActionEdit)
        requires
            index < self.working.actions@.len(),
        ensures
            !r.accepted,
            r.action@ == self.working@.actions[index as int],
            text_views(r.other_ids@) == ids_of(self.working@.actions).remove(index as int),
    {
        ActionEdit {
            accepted: false,
            action: self.working.actions[index].clone(),
            other_ids: self.ids(Some(index)),
        }
    }

    /// Appends an action that the action editor gave.
    pub fn push_action(&mut self, action: Action)
        ensures
            actions_change(*old(self), *final(self), old(self).working.actions@.push(action)),
            final(self).working@.actions == old(self).working@.actions.push(action@),
    {
        self.working.actions.push(action);
    }

    /// Puts an action that the action editor gave in the place of the one at
    /// `index`.
    pub fn set_action(&mut self, index: usize, action: Action)
        requires
            index < old(self).working.actions@.len(),
        ensures
            actions_change(
                *old(self),
                *final(self),
                old(self).working.actions@.update(index as int, action),
            ),
            final(self).working@.actions == old(self).working@.actions.update(
                index as int,
                action@,
            ),
    {
        self.working.actions.set(index, action);
    }

    /// Removes the action at `index`.
    pub fn delete_action(&mut self, index: usize)
        requires
            index < old(self).working.actions@.len(),
        ensures
            actions_change(
                *old(self),
                *final(self),
                old(self).working.actions@.remove(index as int),
            ),
            final(self).working@.actions == old(self).working@.actions.remove(index as int),
    {
        let _ = self.working.actions.remove(index);
    }

    /// Moves the action at `index` one row up or down, and gives its new
    /// row; at the end of the list nothing moves.
    pub fn move_action(&mut self, index: usize, up: bool) -> (r: Option<usize>)
        requires
            index < old(self).working.actions@.len(),
        ensures
            match moved_row(index as int, up, old(self).working.actions@.len() as int) {
                Some(j) => {
                    &&& r matches Some(row) && row == j
                    &&& actions_change(
                        *old(self),
                        *final(self),
                        swapped(old(self).working.actions@, index as int, j),
                    )
                    &&& final(self).working@.actions == swapped(
                        old(self).working@.actions,
                        index as int,
                        j,
                    )
                },
                None => r is None && *final(self) == *old(self),
            },
    {
        let n: usize = self.working.actions.len();
        let j: usize = if up {
            if index == 0 {
                return None;
            }
            index - 1
        } else {
            if index >= n - 1 {
                return None;
            }
            index + 1
        };
        let ghost before = self.working.actions@;
        let action = self.working.actions.remove(index);
        self.working.actions.insert(j, action);
        assert(self.working.actions@ =~= swapped(before, index as int, j as int));
        Some(j)
    }

    /// Starts a test launch of what the editor holds, unless one is in
    /// flight.
    pub fn start_test(&mut self) -> (r: Option<Profile>)
        ensures
            final(self).working == old(self).working,
            final(self).accepted == old(self).accepted,
            final(self).testing,
            match r {
                Some(profile) => !old(self).testing && profile@ == old(self).working@,
                None => old(self).testing,
            },
    {
        if self.testing {
            return None;
        }
        self.testing = true;
        Some(self.working.clone())
    }

    /// Notes that the test launch is over.
    pub fn test_done(&mut self)
        ensures
            *final(self) == (ProfileEdit { testing: false, ..*old(self) }),
    {
        self.testing = false;
    }

    /// Takes over the name and accepts the profile, or says what is wrong
    /// with it.
    pub fn accept(&mut self, name: String) -> (r: Result<(), String>)
        ensures
            final(self).working == (Profile { name, ..old(self).working }),
            final(self).testing == old(self).testing,
            match profile_error(final(self).working@) {
                Some(m) => {
                    &&& r matches Err(text) && text@ == m
                    &&& final(self).accepted == old(self).accepted
                },
                None => r is Ok && final(self).accepted,
            },
    {
        self.working.name = name;
        if chars_of(self.working.name.as_str()).len() == 0 {
            return Err("名前を入力してください。".to_owned());
        }
        // Full validation, by wrapping in a one-profile config; this catches
        // duplicate action ids and per-action rules.
        let mut profiles: Vec<Profile> = Vec::new();
        profiles.push(self.working.clone());
        let check = Config { version: CURRENT_CONFIG_VERSION, profiles };
        assert(check@.profiles =~= seq![self.working@]);
        match check.validate() {
            Err(m) => Err("保存できません: ".to_owned().concat(m.as_str())),
            Ok(()) => {
                self.accepted = true;
                Ok(())
            },
        }
    }

    /// The result of the editor: the edited profile on OK.
    pub fn finish(self) -> (r: Option<Profile>)
        ensures
            r == if self.accepted {
                Some(self.working)
            } else {
                None
            },
    {
        if self.accepted {
            Some(self.working)
        } else {
            None
        }
    }
}

// ---------- laws ----------

/// The profile editor accepts exactly the profiles whose own rules hold.
pub proof fn accepted_profiles_are_valid(profile: ProfileView)
    ensures
        profile_error(profile) is None <==> valid_profile(profile),
{
    single_profile_config_valid(profile);
}

/// The action editor accepts fields exactly when they spell a valid action
/// whose id is free.
pub proof fn accepted_actions_are_valid(fields: Fields, other_ids: Seq<Seq<char>>)
    ensures
        fields_error(fields, other_ids) is None <==> {
            &&& !other_ids.contains(fields.id@)
            &&& fields.kind() matches Ok(kind) && valid_action(
                ActionView { id: fields.id@, disabled: fields.disabled, kind },
            )
        },
{
    if let Ok(kind) = fields.kind() {
        no_action_error_iff_valid(
            ActionView { id: fields.id@, disabled: fields.disabled, kind },
        );
    }
}

/// Adding an accepted action to a valid profile leaves it valid.
pub proof fn adding_keeps_valid(profile: ProfileView, action: ActionView)
    requires
        valid_profile(profile),
        valid_action(action),
        !ids_of(profile.actions).contains(action.id),
    ensures
        valid_profile(ProfileView { actions: profile.actions.push(action), ..profile }),
{
    let after = profile.actions.push(action);
    assert forall|j: int, k: int| 0 <= j < k < after.len() implies (#[trigger] after[j]).id != (
    #[trigger] after[k]).id by {
        if k == profile.actions.len() {
            assert(ids_of(profile.actions)[j] == after[j].id);
        }
    }
}

/// Replacing an action of a valid profile by an accepted one leaves it valid.
pub proof fn editing_keeps_valid(profile: ProfileView, index: int, action: ActionView)
    requires
        valid_profile(profile),
        0 <= index < profile.actions.len(),
        valid_action(action),
        !ids_of(profile.actions).remove(index).contains(action.id),
    ensures
        valid_profile(
            ProfileView { actions: profile.actions.update(index, action), ..profile },
        ),
{
    let after = profile.actions.update(index, action);
    let others = ids_of(profile.actions).remove(index);
    assert forall|j: int| 0 <= j < after.len() && j != index implies (#[trigger] after[j]).id
        != action.id by {
        if j < index {
            assert(others[j] == after[j].id);
        } else {
            assert(others[j - 1] == after[j].id);
        }
    }
    assert forall|k: int| 0 <= k < after.len() implies valid_action(#[trigger] after[k]) by {
        if k != index {
            assert(after[k] == profile.actions[k]);
        }
    }
    assert forall|j: int, k: int| 0 <= j < k < after.len() implies (#[trigger] after[j]).id != (
    #[trigger] after[k]).id by {
        if j != index && k != index {
            assert(after[j] == profile.actions[j]);
            assert(after[k] == profile.actions[k]);
        }
    }
}

/// Removing an action of a valid profile leaves it valid.
pub proof fn deleting_keeps_valid(profile: ProfileView, index: int)
    requires
        valid_profile(profile),
        0 <= index < profile.actions.len(),
    ensures
        valid_profile(ProfileView { actions: profile.actions.remove(index), ..profile }),
{
    let after = profile.actions.remove(index);
    assert forall|k: int| 0 <= k < after.len() implies valid_action(#[trigger] after[k]) by {
        if k < index {
            assert(after[k] == profile.actions[k]);
        } else {
            assert(after[k] == profile.actions[k + 1]);
        }
    }
    assert forall|j: int, k: int| 0 <= j < k < after.len() implies (#[trigger] after[j]).id != (
    #[trigger] after[k]).id by {
        let a = if j < index {
            j
        } else {
            j + 1
        };
        let b = if k < index {
            k
        } else {
            k + 1
        };
        assert(after[j] == profile.actions[a]);
        assert(after[k] == profile.actions[b]);
    }
}

/// Moving an action of a valid profile leaves it valid.
pub proof fn moving_keeps_valid(profile: ProfileView, i: int, j: int)
    requires
        valid_profile(profile),
        0 <= i < profile.actions.len(),
        0 <= j < profile.actions.len(),
    ensures
        valid_profile(ProfileView { actions: swapped(profile.actions, i, j), ..profile }),
{
    let after = swapped(profile.actions, i, j);
    assert forall|k: int| 0 <= k < after.len() implies valid_action(#[trigger] after[k]) by {
        let b = if k == i {
            j
        } else if k == j {
            i
        } else {
            k
        };
        assert(after[k] == profile.actions[b]);
    }
    assert forall|a: int, b: int| 0 <= a < b < after.len() implies (#[trigger] after[a]).id != (
    #[trigger] after[b]).id by {
        let x = if a == i {
            j
        } else if a == j {
            i
        } else {
            a
        };
        let y = if b == i {
            j
        } else if b == j {
            i
        } else {
            b
        };
        assert(after[a] == profile.actions[x]);
        assert(after[b] == profile.actions[y]);
    }
}

/// Moving a row back undoes the move.
pub proof fn moving_back_undoes(actions: Seq<ActionView>, i: int, up: bool)
    requires
        0 <= i < actions.len(),
    ensures
        moved_row(i, up, actions.len() as int) matches Some(j) ==> {
            &&& moved_row(j, !up, actions.len() as int) == Some(i)
            &&& swapped(swapped(actions, i, j), j, i) == actions
        },
{
    if let Some(j) = moved_row(i, up, actions.len() as int) {
        assert(swapped(swapped(actions, i, j), j, i) =~= actions);
    }
}

} // verus!
