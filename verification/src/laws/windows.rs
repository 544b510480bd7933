//! The windows of the profile manager and what their controls do.

use crate::args::ShortcutLocation;
use crate::gui::menu_location;
use crate::layout::{
    action_command, action_command_of, action_editor_controls, action_editor_window, apply_type,
    centered_lies_inside, change_views, command_code, command_id, control_views, dialog_event,
    field_layout, is_completion, kept_selection, layout_of, list_selection, main_command,
    main_command_of, main_controls, main_window, modal_key, modal_step, profile_command,
    profile_command_of, profile_editor_controls, profile_editor_window, row_to_keep,
    try_centered_rect, type_changes, ActionCommand, Bounds, Browse, Change, ChangeView, Control,
    ControlClass, ControlView, DialogEvent, FieldLayout, MainCommand, ModalStep, ProfileCommand,
    RowChange, WindowKind,
};
use vstd::prelude::*;
use vstd::string::*;

verus! {

/// Whether a window has a button with this text whose id passes the test.
pub open spec fn has_button(controls: Seq<Control>, text: Seq<char>, does: spec_fn(i32) -> bool) -> bool {
    exists|i: int|
        0 <= i < controls.len() && (#[trigger] controls[i]).class == ControlClass::Button
            && controls[i].text@ == text && does(controls[i].id)
}

/// Whether a window has a control of this class with this text and id.
pub open spec fn has_control(controls: Seq<Control>, class: ControlClass, text: Seq<char>, id: i32) -> bool {
    exists|i: int|
        0 <= i < controls.len() && (#[trigger] controls[i]).class == class && controls[i].text@
            == text && controls[i].id == id
}

/// Whether two controls share no point of the window.
pub open spec fn apart(a: Control, b: Control) -> bool {
    ||| a.x + a.w <= b.x
    ||| b.x + b.w <= a.x
    ||| a.y + a.h <= b.y
    ||| b.y + b.h <= a.y
}

proof fn control_is(controls: Seq<Control>, window: Seq<ControlView>)
    requires
        control_views(controls) == window,
    ensures
        controls.len() == window.len(),
        forall|i: int|
            0 <= i < controls.len() ==> {
                &&& (#[trigger] controls[i]).class == window[i].class
                &&& controls[i].text@ == window[i].text
                &&& controls[i].x == window[i].x
                &&& controls[i].y == window[i].y
                &&& controls[i].w == window[i].w
                &&& controls[i].h == window[i].h
                &&& controls[i].id == window[i].id
            },
{
    assert(window.len() == controls.len());
    assert forall|i: int| 0 <= i < controls.len() implies {
        &&& (#[trigger] controls[i]).class == window[i].class
        &&& controls[i].text@ == window[i].text
        &&& controls[i].x == window[i].x
        &&& controls[i].y == window[i].y
        &&& controls[i].w == window[i].w
        &&& controls[i].h == window[i].h
        &&& controls[i].id == window[i].id
    } by {
        assert(control_views(controls)[i] == controls[i]@);
    }
}

/// Each button of the main window asks for what its text says, and there is
/// one for each command. The box is the autostart box, a double click on the
/// list launches, and the label shows the path.
pub proof fn main_buttons_do_what_they_say(
    path: &str,
    r: Vec<Control>,
    asks: spec_fn(i32, u32) -> MainCommand,
)
    requires
        call_ensures(main_controls, (path,), r),
        forall|id: i32, code: u32|
            call_ensures(main_command, (id, code), #[trigger] asks(id, code)),
    ensures
        forall|i: int, code: u32|
            0 <= i < r@.len() ==> match (#[trigger] r@[i]).class {
                ControlClass::Button => {
                    ||| r@[i].text@ == "実行"@ && #[trigger] asks(r@[i].id, code) is Launch
                    ||| r@[i].text@ == "新規"@ && asks(r@[i].id, code) is New
                    ||| r@[i].text@ == "編集"@ && asks(r@[i].id, code) is Edit
                    ||| r@[i].text@ == "削除"@ && asks(r@[i].id, code) is Delete
                    ||| r@[i].text@ == "ショートカット"@ && asks(r@[i].id, code) is Shortcut
                },
                ControlClass::CheckBox => {
                    &&& r@[i].text@ == "Windows 起動時に常駐する"@
                    &&& asks(r@[i].id, code) is Autostart
                },
                ControlClass::List => if code == 2 {
                    asks(r@[i].id, code) is Launch
                } else {
                    asks(r@[i].id, code) is Nothing
                },
                ControlClass::Label => r@[i].text@ == path@ && asks(r@[i].id, code) is Nothing,
                _ => false,
            },
        has_button(r@, "実行"@, |id: i32| asks(id, 0) is Launch),
        has_button(r@, "新規"@, |id: i32| asks(id, 0) is New),
        has_button(r@, "編集"@, |id: i32| asks(id, 0) is Edit),
        has_button(r@, "削除"@, |id: i32| asks(id, 0) is Delete),
        has_button(r@, "ショートカット"@, |id: i32| asks(id, 0) is Shortcut),
        forall|i: int, j: int|
            0 <= i < j < r@.len() ==> (#[trigger] r@[i]).id != (#[trigger] r@[j]).id && apart(
                r@[i],
                r@[j],
            ),
{
    let w = main_window(path@);
    control_is(r@, w);
    assert forall|id: i32, code: u32| #[trigger] asks(id, code) == main_command_of(id, code) by {
        assert(call_ensures(main_command, (id, code), asks(id, code)));
    }
    assert(w.len() == 8);
    assert(r@[1].class == ControlClass::Button && r@[2].class == ControlClass::Button
        && r@[3].class == ControlClass::Button && r@[4].class == ControlClass::Button
        && r@[5].class == ControlClass::Button);
}

/// The main window is laid out from top to bottom: the list, the buttons in
/// one row from left to right, the box and the path.
pub proof fn the_main_window_is_laid_out_in_rows(path: &str, r: Vec<Control>, i: int, j: int)
    requires
        call_ensures(main_controls, (path,), r),
        0 <= i < j < r@.len(),
    ensures
        r@[i].class == ControlClass::Button && r@[j].class == ControlClass::Button ==> r@[i].y
            == r@[j].y && r@[i].h == r@[j].h && r@[i].x + r@[i].w < r@[j].x,
        r@[i].class != r@[j].class ==> r@[i].y + r@[i].h < r@[j].y,
        0 < r@[i].x && 0 < r@[i].w && 0 < r@[i].y && 0 < r@[i].h,
        r@[i].x + r@[i].w <= r@[0].x + r@[0].w && r@[j].x + r@[j].w <= r@[0].x + r@[0].w,
{
    control_is(r@, main_window(path@));
}

/// In the editors each field stands behind or below its label: the name and
/// the id of a profile and of an action to the right of theirs, and the three
/// fields of an action right below theirs.
pub proof fn fields_stand_by_their_labels(
    name: &str,
    id: &str,
    p: Vec<Control>,
    a: Vec<Control>,
)
    requires
        call_ensures(profile_editor_controls, (name, id), p),
        call_ensures(action_editor_controls, (id,), a),
    ensures
        has_labelled(p@, "名前"@, 200),
        has_labelled(p@, "ID"@, 201),
        has_labelled(a@, "ID"@, 300),
        has_labelled(a@, "種類"@, 301),
        has_labelled(a@, "シェル"@, 310),
        has_below(a@, 303, 304),
        has_below(a@, 305, 306),
        has_below(a@, 307, 308),
{
    control_is(p@, profile_editor_window(name@, id@));
    control_is(a@, action_editor_window(id@));
    assert(labels_row(p@[0], p@[1]));
    assert(labels_row(p@[2], p@[3]));
    assert(labels_row(a@[0], a@[1]));
    assert(labels_row(a@[2], a@[3]));
    assert(labels_row(a@[11], a@[13]));
    assert(heads(a@[5], a@[6]));
    assert(heads(a@[7], a@[8]));
    assert(heads(a@[9], a@[10]));
}

/// Whether a label stands to the left of a control, in its row.
pub open spec fn labels_row(label: Control, field: Control) -> bool {
    label.x + label.w <= field.x && field.y <= label.y < field.y + field.h && field.x - label.x
        - label.w <= 12
}

/// Whether a control stands right below a label, from the same left edge.
pub open spec fn heads(label: Control, field: Control) -> bool {
    label.x == field.x && label.y + label.h <= field.y <= label.y + label.h + 4
}

/// Whether a window has a label with this text in the row of the control.
pub open spec fn has_labelled(controls: Seq<Control>, text: Seq<char>, id: i32) -> bool {
    exists|i: int, j: int|
        0 <= i < controls.len() && 0 <= j < controls.len() && #[trigger] labels_row(
            controls[i],
            controls[j],
        ) && controls[i].class == ControlClass::Label && controls[i].text@ == text
            && controls[j].id == id
}

/// Whether a window has the one control as a label right above the other.
pub open spec fn has_below(controls: Seq<Control>, label: i32, id: i32) -> bool {
    exists|i: int, j: int|
        0 <= i < controls.len() && 0 <= j < controls.len() && #[trigger] heads(
            controls[i],
            controls[j],
        ) && controls[i].class == ControlClass::Label && controls[i].id == label && controls[j].id
            == id
}

/// Each button of the profile editor asks for what its text says, and there
/// is one for each command. A double click on the list edits. The name can be
/// changed, the id only read.
pub proof fn profile_buttons_do_what_they_say(
    name: &str,
    id: &str,
    r: Vec<Control>,
    asks: spec_fn(i32, u32) -> ProfileCommand,
)
    requires
        call_ensures(profile_editor_controls, (name, id), r),
        forall|id: i32, code: u32|
            call_ensures(profile_command, (id, code), #[trigger] asks(id, code)),
    ensures
        forall|i: int, code: u32|
            0 <= i < r@.len() ==> match (#[trigger] r@[i]).class {
                ControlClass::Button => {
                    ||| r@[i].text@ == "追加"@ && #[trigger] asks(r@[i].id, code) is Add
                    ||| r@[i].text@ == "編集"@ && asks(r@[i].id, code) is Edit
                    ||| r@[i].text@ == "削除"@ && asks(r@[i].id, code) is Delete
                    ||| r@[i].text@ == "上へ"@ && asks(r@[i].id, code) is MoveUp
                    ||| r@[i].text@ == "下へ"@ && asks(r@[i].id, code) is MoveDown
                    ||| r@[i].text@ == "テスト実行"@ && asks(r@[i].id, code) is Test
                    ||| r@[i].text@ == "OK"@ && asks(r@[i].id, code) is Accept
                    ||| r@[i].text@ == "キャンセル"@ && asks(r@[i].id, code) is Cancel
                },
                ControlClass::List => if code == 2 {
                    asks(r@[i].id, code) is Edit
                } else {
                    asks(r@[i].id, code) is Nothing
                },
                ControlClass::Edit => r@[i].text@ == name@ && asks(r@[i].id, code) is Nothing,
                ControlClass::ReadOnlyEdit => r@[i].text@ == id@ && asks(r@[i].id, code) is Nothing,
                ControlClass::Label => asks(r@[i].id, code) is Nothing,
                _ => false,
            },
        has_button(r@, "追加"@, |id: i32| asks(id, 0) is Add),
        has_button(r@, "編集"@, |id: i32| asks(id, 0) is Edit),
        has_button(r@, "削除"@, |id: i32| asks(id, 0) is Delete),
        has_button(r@, "上へ"@, |id: i32| asks(id, 0) is MoveUp),
        has_button(r@, "下へ"@, |id: i32| asks(id, 0) is MoveDown),
        has_button(r@, "テスト実行"@, |id: i32| asks(id, 0) is Test),
        has_button(r@, "OK"@, |id: i32| asks(id, 0) is Accept),
        has_button(r@, "キャンセル"@, |id: i32| asks(id, 0) is Cancel),
        has_control(r@, ControlClass::Edit, name@, 200),
        has_control(r@, ControlClass::ReadOnlyEdit, id@, 201),
        has_control(r@, ControlClass::List, ""@, 202),
        forall|i: int, j: int|
            0 <= i < j < r@.len() ==> ((#[trigger] r@[i]).id != (#[trigger] r@[j]).id || r@[i].id
                == -1) && apart(r@[i], r@[j]),
{
    let w = profile_editor_window(name@, id@);
    control_is(r@, w);
    assert forall|id: i32, code: u32| #[trigger] asks(id, code) == profile_command_of(id, code) by {
        assert(call_ensures(profile_command, (id, code), asks(id, code)));
    }
    assert(w.len() == 14);
    assert(r@[1].class == ControlClass::Edit && r@[3].class == ControlClass::ReadOnlyEdit
        && r@[5].class == ControlClass::List);
    assert(r@[6].class == ControlClass::Button && r@[7].class == ControlClass::Button
        && r@[8].class == ControlClass::Button && r@[9].class == ControlClass::Button
        && r@[10].class == ControlClass::Button && r@[11].class == ControlClass::Button
        && r@[12].class == ControlClass::Button && r@[13].class == ControlClass::Button);
}

/// Each button of the action editor asks for what its text says, and there is
/// one for each command. Another row of the type combo changes the type, and
/// no other control asks for anything. The id is shown, and the fields start
/// empty.
pub proof fn action_buttons_do_what_they_say(
    id: &str,
    r: Vec<Control>,
    asks: spec_fn(i32, u32) -> ActionCommand,
)
    requires
        call_ensures(action_editor_controls, (id,), r),
        forall|id: i32, code: u32|
            call_ensures(action_command, (id, code), #[trigger] asks(id, code)),
    ensures
        forall|i: int, code: u32|
            0 <= i < r@.len() ==> match (#[trigger] r@[i]).class {
                ControlClass::Button => {
                    ||| r@[i].text@ == "参照..."@ && #[trigger] asks(r@[i].id, code) is Browse
                    ||| r@[i].text@ == "OK"@ && asks(r@[i].id, code) is Accept
                    ||| r@[i].text@ == "キャンセル"@ && asks(r@[i].id, code) is Cancel
                },
                ControlClass::Combo => if r@[i].id == 301 && code == 1 {
                    asks(r@[i].id, code) is ChangeType
                } else {
                    asks(r@[i].id, code) is Nothing
                },
                _ => asks(r@[i].id, code) is Nothing,
            },
        has_button(r@, "参照..."@, |id: i32| asks(id, 0) is Browse && id == 311),
        has_button(r@, "OK"@, |id: i32| asks(id, 0) is Accept && id == 1),
        has_button(r@, "キャンセル"@, |id: i32| asks(id, 0) is Cancel && id == 2),
        has_control(r@, ControlClass::Edit, id@, 300),
        has_control(r@, ControlClass::Combo, ""@, 301),
        has_control(
            r@,
            ControlClass::CheckBox,
            "無効 (このアクションをスキップ)"@,
            302,
        ),
        has_control(r@, ControlClass::Label, ""@, 303),
        has_control(r@, ControlClass::Edit, ""@, 304),
        has_control(r@, ControlClass::Label, ""@, 305),
        has_control(r@, ControlClass::Edit, ""@, 306),
        has_control(r@, ControlClass::Label, ""@, 307),
        has_control(r@, ControlClass::Edit, ""@, 308),
        has_control(r@, ControlClass::Label, "シェル"@, 309),
        has_control(r@, ControlClass::Combo, ""@, 310),
        forall|i: int, j: int|
            0 <= i < j < r@.len() ==> ((#[trigger] r@[i]).id != (#[trigger] r@[j]).id || r@[i].id
                == -1) && (apart(r@[i], r@[j]) || r@[i].class == ControlClass::Combo || r@[j].class
                == ControlClass::Combo || r@[j].id == 309),
{
    let w = action_editor_window(id@);
    control_is(r@, w);
    assert forall|id: i32, code: u32| #[trigger] asks(id, code) == action_command_of(id, code) by {
        assert(call_ensures(action_command, (id, code), asks(id, code)));
    }
    assert(w.len() == 16);
    assert(r@[1].class == ControlClass::Edit && r@[3].class == ControlClass::Combo);
    assert(r@[4].class == ControlClass::CheckBox);
    assert(r@[5].class == ControlClass::Label && r@[6].class == ControlClass::Edit);
    assert(r@[7].class == ControlClass::Label && r@[8].class == ControlClass::Edit);
    assert(r@[9].class == ControlClass::Label && r@[10].class == ControlClass::Edit);
    assert(r@[11].class == ControlClass::Label && r@[13].class == ControlClass::Combo);
    assert(r@[12].class == ControlClass::Button && r@[14].class == ControlClass::Button
        && r@[15].class == ControlClass::Button);
}

/// The fields that each type has: a program three, every other type one, and
/// a row that is no type none. Only a command has a shell. A program and a
/// file are browsed for among files, a folder among folders.
pub proof fn types_have_their_fields(type_index: usize, r: FieldLayout)
    requires
        call_ensures(field_layout, (type_index,), r),
    ensures
        r.first is Some <==> type_index <= 5,
        r.second is Some <==> type_index == 0,
        r.third is Some <==> type_index == 0,
        r.shell <==> type_index == 4,
        r.browse == Some(Browse::File) <==> type_index == 0 || type_index == 2,
        r.browse == Some(Browse::Folder) <==> type_index == 1,
        type_index == 0 ==> r.first->0@ == "パス"@ && r.second->0@ == "引数"@ && r.third->0@
            == "作業フォルダ (省略可)"@,
        type_index == 1 ==> r.first->0@ == "フォルダのパス"@,
        type_index == 2 ==> r.first->0@ == "ファイルのパス"@,
        type_index == 3 ==> r.first->0@ == "URL"@,
        type_index == 4 ==> r.first->0@ == "コマンド"@,
        type_index == 5 ==> r.first->0@ == "待機時間 (ms)"@,
{
    assert(r@ == layout_of(type_index));
}

/// What selecting a type shows: the rows that the type has, the shell for a
/// command, and the browse button for a path. A field that is shown can be
/// used, no field is changed that is to be kept, and the others end up empty.
#[verifier::rlimit(40)]
pub proof fn selecting_a_type_shows_its_fields(type_index: usize, keep: bool, r: Vec<Change>)
    requires
        call_ensures(apply_type, (type_index, keep), r),
    ensures
        forall|i: int|
            0 <= i < r@.len() ==> match #[trigger] r@[i] {
                Change::Visible { id, visible } => {
                    &&& 303 <= id <= 311
                    &&& id <= 304 ==> visible == (type_index <= 5)
                    &&& 305 <= id <= 308 ==> visible == (type_index == 0)
                    &&& id == 309 || id == 310 ==> visible == (type_index == 4)
                    &&& id == 311 ==> visible == (type_index <= 2)
                },
                Change::Enabled { id } => {
                    ||| id == 304 && type_index <= 5
                    ||| (id == 306 || id == 308) && type_index == 0
                },
                Change::Text { id, text } => {
                    ||| id == 303 && layout_of(type_index).first == Some(text@)
                    ||| id == 305 && layout_of(type_index).second == Some(text@)
                    ||| id == 307 && layout_of(type_index).third == Some(text@)
                    ||| (id == 304 || id == 306 || id == 308) && !keep && text@ == ""@
                },
            },
        forall|id: i32| 303 <= id <= 311 ==> #[trigger] decides(r@, id),
        type_index <= 5 ==> enables(r@, 304) && labels(r@, 303),
        type_index == 0 ==> enables(r@, 306) && enables(r@, 308) && labels(r@, 305) && labels(
            r@,
            307,
        ),
        !keep ==> labels(r@, 304) && labels(r@, 306) && labels(r@, 308),
{
    let c = type_changes(type_index, keep);
    let v = change_views(r@);
    assert(v == c);
    assert(v.len() == r@.len());
    assert forall|i: int| 0 <= i < r@.len() implies (#[trigger] r@[i])@ == c[i] by {
        assert(v[i] == r@[i]@);
    }
    // Where the rows of the second and third field start, and what follows.
    let (second, third, behind): (int, int, int) = if type_index == 0 {
        (4, 8, 12)
    } else if type_index <= 5 {
        (4, 6, 8)
    } else {
        (2, 4, 6)
    };
    if type_index <= 5 {
        assert(r@[0]@ is Text && r@[1]@ is Visible && r@[2]@ is Visible && r@[3]@ is Enabled);
    } else {
        assert(r@[0]@ is Visible && r@[1]@ is Visible);
    }
    if type_index == 0 {
        assert(r@[4]@ is Text && r@[5]@ is Visible && r@[6]@ is Visible && r@[7]@ is Enabled);
        assert(r@[8]@ is Text && r@[9]@ is Visible && r@[10]@ is Visible && r@[11]@ is Enabled);
    } else {
        assert(r@[second]@ is Visible && r@[second + 1]@ is Visible);
        assert(r@[third]@ is Visible && r@[third + 1]@ is Visible);
    }
    assert(r@[behind]@ == (ChangeView::Visible { id: 309, visible: type_index == 4 }));
    assert(r@[behind + 1]@ == (ChangeView::Visible { id: 310, visible: type_index == 4 }));
    assert(r@[behind + 2]@ is Visible);
    if !keep {
        assert(r@[behind + 3]@ == (ChangeView::Text { id: 304, text: ""@ }));
        assert(r@[behind + 4]@ == (ChangeView::Text { id: 306, text: ""@ }));
        assert(r@[behind + 5]@ == (ChangeView::Text { id: 308, text: ""@ }));
    }
    assert forall|id: i32| 303 <= id <= 311 implies #[trigger] decides(r@, id) by {
        if id == 309 {
            assert(r@[behind] is Visible);
        } else if id == 310 {
            assert(r@[behind + 1] is Visible);
        } else if id == 311 {
            assert(r@[behind + 2] is Visible);
        }
    }
}

/// Whether one of the changes shows or hides the control.
pub open spec fn decides(changes: Seq<Change>, id: i32) -> bool {
    exists|i: int|
        0 <= i < changes.len() && (#[trigger] changes[i] matches Change::Visible { id: of, .. }
            && of == id)
}

/// Whether one of the changes lets the control be used.
pub open spec fn enables(changes: Seq<Change>, id: i32) -> bool {
    exists|i: int|
        0 <= i < changes.len() && (#[trigger] changes[i] matches Change::Enabled { id: of } && of
            == id)
}

/// Whether one of the changes sets the control's text.
pub open spec fn labels(changes: Seq<Change>, id: i32) -> bool {
    exists|i: int|
        0 <= i < changes.len() && (#[trigger] changes[i] matches Change::Text { id: of, .. } && of
            == id)
}

/// What a window makes of a message. Destroying the main window ends the
/// program, destroying another one does not; and only the window that started
/// a run is told of its end.
pub proof fn windows_sort_their_messages(window: WindowKind, msg: u32, r: DialogEvent)
    requires
        call_ensures(dialog_event, (window, msg), r),
    ensures
        r is Attach <==> msg == 0x81,
        r is Create <==> msg == 0x01,
        r is Command <==> msg == 0x111,
        r is Close <==> msg == 0x10,
        r is Quit <==> msg == 0x02 && window is Main,
        r is Detach <==> msg == 0x02 && !(window is Main),
        r is Done <==> (msg == 0x8001 && window is Main) || (msg == 0x8002
            && window is ProfileEditor),
        r is Default <==> msg != 0x81 && msg != 0x01 && msg != 0x111 && msg != 0x10 && msg != 0x02
            && !(msg == 0x8001 && window is Main) && !(msg == 0x8002 && window is ProfileEditor),
{
}

/// Enter accepts and Escape cancels in both editors, and no other key or
/// message stands for a command.
pub proof fn enter_accepts_and_escape_cancels(
    message: u32,
    wparam: usize,
    key: Option<i32>,
    profile: ProfileCommand,
    action: ActionCommand,
)
    requires
        call_ensures(modal_key, (message, wparam), key),
        key matches Some(id) ==> call_ensures(profile_command, (id, 0u32), profile)
            && call_ensures(action_command, (id, 0u32), action),
    ensures
        key is Some <==> message == 0x100 && (wparam == 13 || wparam == 27),
        message == 0x100 && wparam == 13 ==> profile is Accept && action is Accept,
        message == 0x100 && wparam == 27 ==> profile is Cancel && action is Cancel,
{
}

/// A command message holds the id in its low half and the code in the other.
pub proof fn command_messages_hold_id_and_code(wparam: usize, id: i32, code: u32)
    requires
        call_ensures(command_id, (wparam,), id),
        call_ensures(command_code, (wparam,), code),
    ensures
        0 <= id < 0x1_0000,
        0 <= code < 0x1_0000,
        wparam <= 0xFFFF_FFFF ==> code * 0x1_0000 + id == wparam,
        (wparam - id - code * 0x1_0000) % 0x1_0000_0000 == 0,
{
    let q: int = wparam as int / 0x1_0000;
    assert(wparam == q * 0x1_0000 + id);
    assert(q == (q / 0x1_0000) * 0x1_0000 + code);
}

/// A message loop goes on exactly while there are messages, and hands a quit
/// request on.
pub proof fn loops_end_with_their_messages(result: i32, r: ModalStep)
    requires
        call_ensures(modal_step, (result,), r),
    ensures
        r is Handle <==> result > 0,
        r is Requeue <==> result == 0,
        r is Leave <==> result < 0,
{
}

/// Only a message with the tag and a pointer counts as a worker's.
pub proof fn completions_carry_the_tag(wparam: usize, lparam: isize, r: bool)
    requires
        call_ensures(is_completion, (wparam, lparam), r),
    ensures
        r <==> wparam == 0x504C_4452 && lparam != 0,
{
}

/// The row that stays selected is always one that is there: the last one
/// after an addition, the same one after an edit or a move, and none else.
pub proof fn selections_stay_on_their_row(
    change: RowChange,
    rows: usize,
    keep: Option<usize>,
    r: Option<usize>,
)
    requires
        call_ensures(row_to_keep, (change, rows), keep),
        call_ensures(kept_selection, (keep, rows), r),
    ensures
        r matches Some(i) ==> i < rows,
        change is Added && rows > 0 ==> r == Some((rows - 1) as usize),
        change is Added && rows == 0 ==> r is None,
        forall|i: usize| change == RowChange::Placed(i) && i < rows ==> r == Some(i),
        change is Opened || change is Deleted ==> r is None,
{
}

/// A selected row is taken as it is given, and a negative answer is none.
pub proof fn rows_are_taken_as_given(answer: isize, r: Option<usize>)
    requires
        call_ensures(list_selection, (answer,), r),
    ensures
        answer >= 0 ==> r == Some(answer as usize),
        answer < 0 ==> r is None,
{
}

/// Each item of the shortcut menu stands for its location.
pub proof fn menu_items_stand_for_locations(command: i32, r: Option<ShortcutLocation>)
    requires
        call_ensures(menu_location, (command,), r),
    ensures
        r == Some(ShortcutLocation::Desktop) <==> command == 1,
        r == Some(ShortcutLocation::StartMenu) <==> command == 2,
        r == Some(ShortcutLocation::Both) <==> command == 3,
        r is None <==> command < 1 || command > 3,
{
}

/// A window that is smaller than what it is centered on stands in its middle:
/// inside, with margins that differ by one at most.
pub proof fn windows_stand_in_the_middle(w: i32, h: i32, on: Bounds, r: Option<(i32, i32)>)
    requires
        call_ensures(try_centered_rect, (w, h, on), r),
        0 <= w <= on.right - on.left,
        0 <= h <= on.bottom - on.top,
        on.right - on.left <= i32::MAX,
        on.bottom - on.top <= i32::MAX,
    ensures
        r is Some,
        ({
            let (x, y) = r->0;
            &&& on.left <= x && x + w <= on.right
            &&& on.top <= y && y + h <= on.bottom
            &&& 0 <= (on.right - x - w) - (x - on.left) <= 1
            &&& 0 <= (on.bottom - y - h) - (y - on.top) <= 1
        }),
{
    centered_lies_inside(on.left as int, on.right as int, w as int);
    centered_lies_inside(on.top as int, on.bottom as int, h as int);
}

/// A window that is larger than what it is centered on sticks out by as much
/// on either side, but for one at most.
pub proof fn large_windows_stick_out_evenly(w: i32, h: i32, on: Bounds, r: Option<(i32, i32)>)
    requires
        call_ensures(try_centered_rect, (w, h, on), r),
        r is Some,
        w > on.right - on.left,
        h > on.bottom - on.top,
    ensures
        ({
            let (x, y) = r->0;
            &&& 0 <= (x + w - on.right) - (on.left - x) <= 1
            &&& 0 <= (y + h - on.bottom) - (on.top - y) <= 1
        }),
{
}

} // verus!
