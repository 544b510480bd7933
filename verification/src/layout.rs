//! The windows of the profile manager: their controls, where these stand,
//! and what the messages and commands they send mean.
//!
//! Everything uses the built-in control classes (LISTBOX, EDIT, BUTTON,
//! COMBOBOX, STATIC). The windows themselves are the caller's.

use vstd::prelude::*;
use vstd::string::*;

verus! {

// ---------- control ids ----------

/// The id of a control that is never asked for.
pub const IDC_STATIC: i32 = -1;

// Main window controls.
pub const IDC_LIST: i32 = 100;

pub const IDC_RUN: i32 = 101;

pub const IDC_NEW: i32 = 102;

pub const IDC_EDIT: i32 = 103;

pub const IDC_DEL: i32 = 104;

pub const IDC_SHORTCUT: i32 = 105;

pub const IDC_STATUS: i32 = 106;

pub const IDC_AUTOSTART: i32 = 107;

// Profile editor controls.
pub const IDC_PE_NAME: i32 = 200;

pub const IDC_PE_ID: i32 = 201;

pub const IDC_PE_ACTIONS: i32 = 202;

pub const IDC_PE_ADD: i32 = 203;

pub const IDC_PE_EDIT: i32 = 204;

pub const IDC_PE_DEL: i32 = 205;

pub const IDC_PE_UP: i32 = 206;

pub const IDC_PE_DOWN: i32 = 207;

pub const IDC_PE_TEST: i32 = 208;

// Action editor controls.
pub const IDC_AE_ID: i32 = 300;

pub const IDC_AE_TYPE: i32 = 301;

pub const IDC_AE_DISABLED: i32 = 302;

pub const IDC_AE_L1: i32 = 303;

pub const IDC_AE_F1: i32 = 304;

pub const IDC_AE_L2: i32 = 305;

pub const IDC_AE_F2: i32 = 306;

pub const IDC_AE_L3: i32 = 307;

pub const IDC_AE_F3: i32 = 308;

pub const IDC_AE_LS: i32 = 309;

pub const IDC_AE_SHELL: i32 = 310;

pub const IDC_AE_BROWSE: i32 = 311;

pub const IDOK: i32 = 1;

pub const IDCANCEL: i32 = 2;

// ---------- controls ----------

#[derive(Debug, Clone, Copy, PartialEq, Eq, Structural)]
pub enum ControlClass {
    /// A list box with a scroll bar that tells of double clicks.
    List,
    Button,
    /// A button that checks and unchecks itself.
    CheckBox,
    Label,
    Edit,
    ReadOnlyEdit,
    /// A drop-down list; its height is that of the dropped list.
    Combo,
}

/// A child control of a window.
#[derive(Debug)]
pub struct Control {
    pub class: ControlClass,
    pub text: String,
    pub x: i32,
    pub y: i32,
    pub w: i32,
    pub h: i32,
    pub id: i32,
}

/// A control as its values.
pub struct ControlView {
    pub class: ControlClass,
    pub text: Seq<char>,
    pub x: i32,
    pub y: i32,
    pub w: i32,
    pub h: i32,
    pub id: i32,
}

impl View for Control {
    type V = ControlView;

    open spec fn view(&self) -> ControlView {
        placed(self.class, self.text@, self.x, self.y, self.w, self.h, self.id)
    }
}

pub open spec fn placed(
    class: ControlClass,
    text: Seq<char>,
    x: i32,
    y: i32,
    w: i32,
    h: i32,
    id: i32,
) -> ControlView {
    ControlView { class, text, x, y, w, h, id }
}

pub open spec fn control_views(controls: Seq<Control>) -> Seq<ControlView> {
    Seq::new(controls.len(), |i: int| controls[i]@)
}

fn ctl(class: ControlClass, text: &str, x: i32, y: i32, w: i32, h: i32, id: i32) -> (r: Control)
    ensures
        r@ == placed(class, text@, x, y, w, h, id),
{
    Control { class, text: text.to_owned(), x, y, w, h, id }
}

/// The main window's controls: the profiles, a row of buttons, the autostart
/// box and the path of the config.
pub open spec fn main_window(path: Seq<char>) -> Seq<ControlView> {
    seq![
        placed(ControlClass::List, ""@, 12, 12, 536, 300, IDC_LIST),
        placed(ControlClass::Button, "実行"@, 12, 322, 120, 30, IDC_RUN),
        placed(ControlClass::Button, "新規"@, 142, 322, 90, 30, IDC_NEW),
        placed(ControlClass::Button, "編集"@, 242, 322, 90, 30, IDC_EDIT),
        placed(ControlClass::Button, "削除"@, 342, 322, 90, 30, IDC_DEL),
        placed(ControlClass::Button, "ショートカット"@, 442, 322, 106, 30, IDC_SHORTCUT),
        placed(ControlClass::CheckBox, "Windows 起動時に常駐する"@, 12, 360, 260, 22, IDC_AUTOSTART),
        placed(ControlClass::Label, path, 12, 392, 536, 20, IDC_STATUS),
    ]
}

pub fn main_controls(path: &str) -> (r: Vec<Control>)
    ensures
        control_views(r@) == main_window(path@),
{
    let r = vec![
        ctl(ControlClass::List, "", 12, 12, 536, 300, IDC_LIST),
        ctl(ControlClass::Button, "実行", 12, 322, 120, 30, IDC_RUN),
        ctl(ControlClass::Button, "新規", 142, 322, 90, 30, IDC_NEW),
        ctl(ControlClass::Button, "編集", 242, 322, 90, 30, IDC_EDIT),
        ctl(ControlClass::Button, "削除", 342, 322, 90, 30, IDC_DEL),
        ctl(ControlClass::Button, "ショートカット", 442, 322, 106, 30, IDC_SHORTCUT),
        ctl(ControlClass::CheckBox, "Windows 起動時に常駐する", 12, 360, 260, 22, IDC_AUTOSTART),
        ctl(ControlClass::Label, path, 12, 392, 536, 20, IDC_STATUS),
    ];
    assert(control_views(r@) =~= main_window(path@));
    r
}

/// The profile editor's controls, for a profile with this name and id.
pub open spec fn profile_editor_window(name: Seq<char>, id: Seq<char>) -> Seq<ControlView> {
    seq![
        placed(ControlClass::Label, "名前"@, 12, 14, 60, 20, IDC_STATIC),
        placed(ControlClass::Edit, name, 80, 12, 300, 24, IDC_PE_NAME),
        placed(ControlClass::Label, "ID"@, 392, 14, 30, 20, IDC_STATIC),
        placed(ControlClass::ReadOnlyEdit, id, 424, 12, 204, 24, IDC_PE_ID),
        placed(ControlClass::Label, "アクション"@, 12, 46, 100, 20, IDC_STATIC),
        placed(ControlClass::List, ""@, 12, 68, 480, 300, IDC_PE_ACTIONS),
        placed(ControlClass::Button, "追加"@, 504, 68, 124, 28, IDC_PE_ADD),
        placed(ControlClass::Button, "編集"@, 504, 102, 124, 28, IDC_PE_EDIT),
        placed(ControlClass::Button, "削除"@, 504, 136, 124, 28, IDC_PE_DEL),
        placed(ControlClass::Button, "上へ"@, 504, 178, 124, 28, IDC_PE_UP),
        placed(ControlClass::Button, "下へ"@, 504, 212, 124, 28, IDC_PE_DOWN),
        placed(ControlClass::Button, "テスト実行"@, 504, 254, 124, 28, IDC_PE_TEST),
        placed(ControlClass::Button, "OK"@, 384, 396, 120, 30, IDOK),
        placed(ControlClass::Button, "キャンセル"@, 512, 396, 116, 30, IDCANCEL),
    ]
}

pub fn profile_editor_controls(name: &str, id: &str) -> (r: Vec<Control>)
    ensures
        control_views(r@) == profile_editor_window(name@, id@),
{
    let r = vec![
        ctl(ControlClass::Label, "名前", 12, 14, 60, 20, IDC_STATIC),
        ctl(ControlClass::Edit, name, 80, 12, 300, 24, IDC_PE_NAME),
        ctl(ControlClass::Label, "ID", 392, 14, 30, 20, IDC_STATIC),
        ctl(ControlClass::ReadOnlyEdit, id, 424, 12, 204, 24, IDC_PE_ID),
        ctl(ControlClass::Label, "アクション", 12, 46, 100, 20, IDC_STATIC),
        ctl(ControlClass::List, "", 12, 68, 480, 300, IDC_PE_ACTIONS),
        ctl(ControlClass::Button, "追加", 504, 68, 124, 28, IDC_PE_ADD),
        ctl(ControlClass::Button, "編集", 504, 102, 124, 28, IDC_PE_EDIT),
        ctl(ControlClass::Button, "削除", 504, 136, 124, 28, IDC_PE_DEL),
        ctl(ControlClass::Button, "上へ", 504, 178, 124, 28, IDC_PE_UP),
        ctl(ControlClass::Button, "下へ", 504, 212, 124, 28, IDC_PE_DOWN),
        ctl(ControlClass::Button, "テスト実行", 504, 254, 124, 28, IDC_PE_TEST),
        ctl(ControlClass::Button, "OK", 384, 396, 120, 30, IDOK),
        ctl(ControlClass::Button, "キャンセル", 512, 396, 116, 30, IDCANCEL),
    ];
    assert(control_views(r@) =~= profile_editor_window(name@, id@));
    r
}

/// The action editor's controls, for an action with this id.
///
/// The shell controls sit on the row of the second field: that row is only
/// visible for the application type, which never shows the shell combo, while
/// the command type that needs it leaves the row free.
pub open spec fn action_editor_window(id: Seq<char>) -> Seq<ControlView> {
    seq![
        placed(ControlClass::Label, "ID"@, 12, 14, 60, 20, IDC_STATIC),
        placed(ControlClass::Edit, id, 80, 12, 200, 24, IDC_AE_ID),
        placed(ControlClass::Label, "種類"@, 292, 14, 50, 20, IDC_STATIC),
        placed(ControlClass::Combo, ""@, 344, 10, 140, 200, IDC_AE_TYPE),
        placed(
            ControlClass::CheckBox,
            "無効 (このアクションをスキップ)"@,
            12,
            46,
            300,
            22,
            IDC_AE_DISABLED,
        ),
        placed(ControlClass::Label, ""@, 12, 82, 160, 20, IDC_AE_L1),
        placed(ControlClass::Edit, ""@, 12, 104, 472, 24, IDC_AE_F1),
        placed(ControlClass::Label, ""@, 12, 138, 160, 20, IDC_AE_L2),
        placed(ControlClass::Edit, ""@, 12, 160, 472, 24, IDC_AE_F2),
        placed(ControlClass::Label, ""@, 12, 194, 160, 20, IDC_AE_L3),
        placed(ControlClass::Edit, ""@, 12, 216, 472, 24, IDC_AE_F3),
        placed(ControlClass::Label, "シェル"@, 12, 138, 60, 20, IDC_AE_LS),
        placed(ControlClass::Button, "参照..."@, 370, 80, 114, 22, IDC_AE_BROWSE),
        placed(ControlClass::Combo, ""@, 80, 136, 140, 160, IDC_AE_SHELL),
        placed(ControlClass::Button, "OK"@, 240, 268, 110, 30, IDOK),
        placed(ControlClass::Button, "キャンセル"@, 360, 268, 110, 30, IDCANCEL),
    ]
}

pub fn action_editor_controls(id: &str) -> (r: Vec<Control>)
    ensures
        control_views(r@) == action_editor_window(id@),
{
    let r = vec![
        ctl(ControlClass::Label, "ID", 12, 14, 60, 20, IDC_STATIC),
        ctl(ControlClass::Edit, id, 80, 12, 200, 24, IDC_AE_ID),
        ctl(ControlClass::Label, "種類", 292, 14, 50, 20, IDC_STATIC),
        ctl(ControlClass::Combo, "", 344, 10, 140, 200, IDC_AE_TYPE),
        ctl(
            ControlClass::CheckBox,
            "無効 (このアクションをスキップ)",
            12,
            46,
            300,
            22,
            IDC_AE_DISABLED,
        ),
        ctl(ControlClass::Label, "", 12, 82, 160, 20, IDC_AE_L1),
        ctl(ControlClass::Edit, "", 12, 104, 472, 24, IDC_AE_F1),
        ctl(ControlClass::Label, "", 12, 138, 160, 20, IDC_AE_L2),
        ctl(ControlClass::Edit, "", 12, 160, 472, 24, IDC_AE_F2),
        ctl(ControlClass::Label, "", 12, 194, 160, 20, IDC_AE_L3),
        ctl(ControlClass::Edit, "", 12, 216, 472, 24, IDC_AE_F3),
        ctl(ControlClass::Label, "シェル", 12, 138, 60, 20, IDC_AE_LS),
        ctl(ControlClass::Button, "参照...", 370, 80, 114, 22, IDC_AE_BROWSE),
        ctl(ControlClass::Combo, "", 80, 136, 140, 160, IDC_AE_SHELL),
        ctl(ControlClass::Button, "OK", 240, 268, 110, 30, IDOK),
        ctl(ControlClass::Button, "キャンセル", 360, 268, 110, 30, IDCANCEL),
    ];
    assert(control_views(r@) =~= action_editor_window(id@));
    r
}

// ---------- which fields an action type has ----------

/// Which picker the browse button opens for a type, if any.
#[derive(Debug, Clone, Copy, PartialEq, Eq, Structural)]
pub enum Browse {
    File,
    Folder,
}

/// Which of the three generic fields a type uses, by their labels, whether
/// the shell combo is relevant, and which picker the browse button opens.
#[derive(Debug)]
pub struct FieldLayout {
    pub first: Option<&'static str>,
    pub second: Option<&'static str>,
    pub third: Option<&'static str>,
    pub shell: bool,
    pub browse: Option<Browse>,
}

/// A field layout as its values.
pub struct LayoutView {
    pub first: Option<Seq<char>>,
    pub second: Option<Seq<char>>,
    pub third: Option<Seq<char>>,
    pub shell: bool,
    pub browse: Option<Browse>,
}

pub open spec fn label_view(label: Option<&'static str>) -> Option<Seq<char>> {
    match label {
        Some(text) => Some(text@),
        None => None,
    }
}

impl View for FieldLayout {
    type V = LayoutView;

    open spec fn view(&self) -> LayoutView {
        LayoutView {
            first: label_view(self.first),
            second: label_view(self.second),
            third: label_view(self.third),
            shell: self.shell,
            browse: self.browse,
        }
    }
}

pub open spec fn one_field(label: Seq<char>, shell: bool, browse: Option<Browse>) -> LayoutView {
    LayoutView { first: Some(label), second: None, third: None, shell, browse }
}

/// The fields of each type, by its index in the type combo.
pub open spec fn layout_of(type_index: usize) -> LayoutView {
    if type_index == 0 {
        LayoutView {
            first: Some("パス"@),
            second: Some("引数"@),
            third: Some("作業フォルダ (省略可)"@),
            shell: false,
            browse: Some(Browse::File),
        }
    } else if type_index == 1 {
        one_field("フォルダのパス"@, false, Some(Browse::Folder))
    } else if type_index == 2 {
        one_field("ファイルのパス"@, false, Some(Browse::File))
    } else if type_index == 3 {
        one_field("URL"@, false, None)
    } else if type_index == 4 {
        one_field("コマンド"@, true, None)
    } else if type_index == 5 {
        one_field("待機時間 (ms)"@, false, None)
    } else {
        LayoutView { first: None, second: None, third: None, shell: false, browse: None }
    }
}

pub fn field_layout(type_index: usize) -> (r: FieldLayout)
    ensures
        r@ == layout_of(type_index),
{
    match type_index {
        0 => FieldLayout {
            first: Some("パス"),
            second: Some("引数"),
            third: Some("作業フォルダ (省略可)"),
            shell: false,
            browse: Some(Browse::File),
        },
        1 => FieldLayout {
            first: Some("フォルダのパス"),
            second: None,
            third: None,
            shell: false,
            browse: Some(Browse::Folder),
        },
        2 => FieldLayout {
            first: Some("ファイルのパス"),
            second: None,
            third: None,
            shell: false,
            browse: Some(Browse::File),
        },
        3 => FieldLayout {
            first: Some("URL"),
            second: None,
            third: None,
            shell: false,
            browse: None,
        },
        4 => FieldLayout {
            first: Some("コマンド"),
            second: None,
            third: None,
            shell: true,
            browse: None,
        },
        5 => FieldLayout {
            first: Some("待機時間 (ms)"),
            second: None,
            third: None,
            shell: false,
            browse: None,
        },
        _ => FieldLayout { first: None, second: None, third: None, shell: false, browse: None },
    }
}

/// A change to a control of the action editor.
#[derive(Debug)]
pub enum Change {
    Text { id: i32, text: &'static str },
    Visible { id: i32, visible: bool },
    Enabled { id: i32 },
}

/// A change as its values.
pub enum ChangeView {
    Text { id: i32, text: Seq<char> },
    Visible { id: i32, visible: bool },
    Enabled { id: i32 },
}

impl View for Change {
    type V = ChangeView;

    open spec fn view(&self) -> ChangeView {
        match self {
            Change::Text { id, text } => ChangeView::Text { id: *id, text: text@ },
            Change::Visible { id, visible } => ChangeView::Visible { id: *id, visible: *visible },
            Change::Enabled { id } => ChangeView::Enabled { id: *id },
        }
    }
}

pub open spec fn change_views(changes: Seq<Change>) -> Seq<ChangeView> {
    Seq::new(changes.len(), |i: int| changes[i]@)
}

/// A field's row: labelled, visible and enabled, or hidden.
pub open spec fn row_changes(label_id: i32, field_id: i32, label: Option<Seq<char>>) -> Seq<
    ChangeView,
> {
    match label {
        Some(text) => seq![
            ChangeView::Text { id: label_id, text },
            ChangeView::Visible { id: label_id, visible: true },
            ChangeView::Visible { id: field_id, visible: true },
            ChangeView::Enabled { id: field_id },
        ],
        None => seq![
            ChangeView::Visible { id: label_id, visible: false },
            ChangeView::Visible { id: field_id, visible: false },
        ],
    }
}

/// What selecting a type changes: the rows of the three fields, the shell
/// combo and the browse button; the fields are emptied unless kept.
pub open spec fn type_changes(type_index: usize, keep_fields: bool) -> Seq<ChangeView> {
    let layout = layout_of(type_index);
    let rows = row_changes(IDC_AE_L1, IDC_AE_F1, layout.first) + row_changes(
        IDC_AE_L2,
        IDC_AE_F2,
        layout.second,
    ) + row_changes(IDC_AE_L3, IDC_AE_F3, layout.third);
    let shown = rows.push(ChangeView::Visible { id: IDC_AE_LS, visible: layout.shell }).push(
        ChangeView::Visible { id: IDC_AE_SHELL, visible: layout.shell },
    ).push(ChangeView::Visible { id: IDC_AE_BROWSE, visible: layout.browse is Some });
    if keep_fields {
        shown
    } else {
        shown.push(ChangeView::Text { id: IDC_AE_F1, text: ""@ }).push(
            ChangeView::Text { id: IDC_AE_F2, text: ""@ },
        ).push(ChangeView::Text { id: IDC_AE_F3, text: ""@ })
    }
}

fn push_change(changes: &mut Vec<Change>, change: Change)
    ensures
        change_views(final(changes)@) == change_views(old(changes)@).push(change@),
{
    let ghost before = changes@;
    changes.push(change);
    assert(change_views(changes@) =~= change_views(before).push(change@));
}

fn push_row(changes: &mut Vec<Change>, label_id: i32, field_id: i32, label: Option<&'static str>)
    ensures
        change_views(final(changes)@) == change_views(old(changes)@) + row_changes(
            label_id,
            field_id,
            label_view(label),
        ),
{
    let ghost before = change_views(changes@);
    match label {
        Some(text) => {
            push_change(changes, Change::Text { id: label_id, text });
            push_change(changes, Change::Visible { id: label_id, visible: true });
            push_change(changes, Change::Visible { id: field_id, visible: true });
            push_change(changes, Change::Enabled { id: field_id });
        },
        None => {
            push_change(changes, Change::Visible { id: label_id, visible: false });
            push_change(changes, Change::Visible { id: field_id, visible: false });
        },
    }
    assert(change_views(changes@) =~= before + row_changes(label_id, field_id, label_view(label)));
}

/// Shows and enables the field set for the selected type.
pub fn apply_type(type_index: usize, keep_fields: bool) -> (r: Vec<Change>)
    ensures
        change_views(r@) == type_changes(type_index, keep_fields),
{
    let layout = field_layout(type_index);
    let mut changes: Vec<Change> = Vec::new();
    let ghost layout_view = layout_of(type_index);
    assert(change_views(changes@) =~= Seq::<ChangeView>::empty());
    push_row(&mut changes, IDC_AE_L1, IDC_AE_F1, layout.first);
    assert(change_views(changes@) =~= row_changes(IDC_AE_L1, IDC_AE_F1, layout_view.first));
    push_row(&mut changes, IDC_AE_L2, IDC_AE_F2, layout.second);
    push_row(&mut changes, IDC_AE_L3, IDC_AE_F3, layout.third);
    push_change(&mut changes, Change::Visible { id: IDC_AE_LS, visible: layout.shell });
    push_change(&mut changes, Change::Visible { id: IDC_AE_SHELL, visible: layout.shell });
    push_change(
        &mut changes,
        Change::Visible { id: IDC_AE_BROWSE, visible: layout.browse.is_some() },
    );
    if !keep_fields {
        push_change(&mut changes, Change::Text { id: IDC_AE_F1, text: "" });
        push_change(&mut changes, Change::Text { id: IDC_AE_F2, text: "" });
        push_change(&mut changes, Change::Text { id: IDC_AE_F3, text: "" });
    }
    changes
}

/// The shell combo and the second field share a row, and no type shows both.
pub proof fn shell_row_is_free(type_index: usize)
    ensures
        layout_of(type_index).shell ==> layout_of(type_index).second is None,
{
}

// ---------- geometry ----------

/// A rectangle on the screen.
#[derive(Debug, Clone, Copy)]
pub struct Bounds {
    pub left: i32,
    pub top: i32,
    pub right: i32,
    pub bottom: i32,
}

/// Half a number, rounded towards zero.
pub open spec fn half(n: int) -> int {
    if n >= 0 {
        n / 2
    } else {
        -((-n) / 2)
    }
}

fn halved(n: i32) -> (r: i32)
    ensures
        r == half(n as int),
{
    if n >= 0 {
        n / 2
    } else if n == i32::MIN {
        -1_073_741_824
    } else {
        -((-n) / 2)
    }
}

/// Where a span of `size` starts that is centered on `from..to`.
pub open spec fn centered(from: int, to: int, size: int) -> int {
    from + half(to - from - size)
}

/// Whether the numbers on the way to `centered` fit.
pub open spec fn can_center(from: int, to: int, size: int) -> bool {
    &&& i32::MIN <= to - from <= i32::MAX
    &&& i32::MIN <= to - from - size <= i32::MAX
    &&& i32::MIN <= centered(from, to, size) <= i32::MAX
}

/// Centers a not-yet-visible window of `w` by `h` on its owner, or on the
/// primary display, whose bounds start at zero, when there is no owner.
pub fn centered_rect(w: i32, h: i32, on: Bounds) -> (r: (i32, i32))
    requires
        can_center(on.left as int, on.right as int, w as int),
        can_center(on.top as int, on.bottom as int, h as int),
    ensures
        r.0 == centered(on.left as int, on.right as int, w as int),
        r.1 == centered(on.top as int, on.bottom as int, h as int),
{
    (
        on.left + halved(on.right - on.left - w),
        on.top + halved(on.bottom - on.top - h),
    )
}

/// Whether the numbers on the way to a centered span fit.
fn fits_centered(from: i32, to: i32, size: i32) -> (r: bool)
    ensures
        r == can_center(from as int, to as int, size as int),
{
    match to.checked_sub(from) {
        None => false,
        Some(span) => match span.checked_sub(size) {
            None => false,
            Some(rest) => from.checked_add(halved(rest)).is_some(),
        },
    }
}

/// Centers a window where the numbers on the way fit.
pub fn try_centered_rect(w: i32, h: i32, on: Bounds) -> (r: Option<(i32, i32)>)
    ensures
        match r {
            Some((x, y)) => {
                &&& can_center(on.left as int, on.right as int, w as int)
                &&& can_center(on.top as int, on.bottom as int, h as int)
                &&& x == centered(on.left as int, on.right as int, w as int)
                &&& y == centered(on.top as int, on.bottom as int, h as int)
            },
            None => {
                ||| !can_center(on.left as int, on.right as int, w as int)
                ||| !can_center(on.top as int, on.bottom as int, h as int)
            },
        },
{
    if fits_centered(on.left, on.right, w) && fits_centered(on.top, on.bottom, h) {
        Some(centered_rect(w, h, on))
    } else {
        None
    }
}

/// A window that fits on what it is centered on lies inside it, with margins
/// that differ by one at most.
pub proof fn centered_lies_inside(from: int, to: int, size: int)
    requires
        0 <= size <= to - from,
    ensures
        from <= centered(from, to, size),
        centered(from, to, size) + size <= to,
        0 <= (to - centered(from, to, size) - size) - (centered(from, to, size) - from) <= 1,
{
}

// ---------- messages ----------

pub const WM_CREATE: u32 = 0x0001;

pub const WM_DESTROY: u32 = 0x0002;

pub const WM_CLOSE: u32 = 0x0010;

pub const WM_NCCREATE: u32 = 0x0081;

pub const WM_KEYDOWN: u32 = 0x0100;

pub const WM_COMMAND: u32 = 0x0111;

/// Posted to the main window when a background run finishes.
pub const WM_LAUNCH_DONE: u32 = 0x8001;

/// Posted to the profile editor when its test launch finishes.
pub const WM_TEST_DONE: u32 = 0x8002;

/// Tag on WM_LAUNCH_DONE / WM_TEST_DONE ("PLDR"). Only the workers attach
/// it, so the handlers can reject forged messages instead of following a
/// crafted pointer.
pub const POST_MAGIC: usize = 0x504C_4452;

/// The windows of the profile manager.
#[derive(Debug, Clone, Copy, PartialEq, Eq, Structural)]
pub enum WindowKind {
    Main,
    ProfileEditor,
    ActionEditor,
}

/// What a message to one of the windows asks for.
#[derive(Debug, Clone, Copy, PartialEq, Eq, Structural)]
pub enum DialogEvent {
    /// Attach the state to the window, then the default handler.
    Attach,
    /// Create the controls.
    Create,
    /// A control was used.
    Command,
    /// A background run finished.
    Done,
    /// Destroy the window.
    Close,
    /// Let go of the state.
    Detach,
    /// Let go of the state and leave the message loop.
    Quit,
    /// Everything else is the default handler's.
    Default,
}

/// The message that tells a window of a finished run, if there is one.
pub open spec fn done_message(window: WindowKind) -> Option<u32> {
    match window {
        WindowKind::Main => Some(WM_LAUNCH_DONE),
        WindowKind::ProfileEditor => Some(WM_TEST_DONE),
        WindowKind::ActionEditor => None,
    }
}

/// What a message to one of the windows asks for.
pub open spec fn dialog_event_of(window: WindowKind, msg: u32) -> DialogEvent {
    if msg == WM_NCCREATE {
        DialogEvent::Attach
    } else if msg == WM_CREATE {
        DialogEvent::Create
    } else if msg == WM_COMMAND {
        DialogEvent::Command
    } else if done_message(window) == Some(msg) {
        DialogEvent::Done
    } else if msg == WM_CLOSE {
        DialogEvent::Close
    } else if msg == WM_DESTROY {
        if window is Main {
            DialogEvent::Quit
        } else {
            DialogEvent::Detach
        }
    } else {
        DialogEvent::Default
    }
}

/// Sorts a message to one of the windows.
pub fn dialog_event(window: WindowKind, msg: u32) -> (r: DialogEvent)
    ensures
        r == dialog_event_of(window, msg),
{
    match msg {
        WM_NCCREATE => DialogEvent::Attach,
        WM_CREATE => DialogEvent::Create,
        WM_COMMAND => DialogEvent::Command,
        WM_CLOSE => DialogEvent::Close,
        WM_DESTROY => match window {
            WindowKind::Main => DialogEvent::Quit,
            _ => DialogEvent::Detach,
        },
        WM_LAUNCH_DONE => match window {
            WindowKind::Main => DialogEvent::Done,
            _ => DialogEvent::Default,
        },
        WM_TEST_DONE => match window {
            WindowKind::ProfileEditor => DialogEvent::Done,
            _ => DialogEvent::Default,
        },
        _ => DialogEvent::Default,
    }
}

/// Whether a completion message is a worker's: anything else must not be
/// taken for a pointer.
pub fn is_completion(wparam: usize, lparam: isize) -> (r: bool)
    ensures
        r == (wparam == POST_MAGIC && lparam != 0),
{
    wparam == POST_MAGIC && lparam != 0
}

/// The id of the control that a WM_COMMAND comes from: the low 16 bits.
pub fn command_id(wparam: usize) -> (r: i32)
    ensures
        r == wparam % 0x1_0000,
{
    (wparam % 0x1_0000) as i32
}

/// What a WM_COMMAND notifies of: the 16 bits above the id.
pub fn command_code(wparam: usize) -> (r: u32)
    ensures
        r == (wparam / 0x1_0000) % 0x1_0000,
{
    ((wparam / 0x1_0000) % 0x1_0000) as u32
}

/// What a modal window's message loop does after GetMessageW.
#[derive(Debug, Clone, Copy, PartialEq, Eq, Structural)]
pub enum ModalStep {
    /// Leave the loop.
    Leave,
    /// Leave the loop and post the quit request again, so that the outer
    /// loop still sees it instead of it being swallowed.
    Requeue,
    /// Handle the message.
    Handle,
}

pub fn modal_step(result: i32) -> (r: ModalStep)
    ensures
        r == if result < 0 {
            ModalStep::Leave
        } else if result == 0 {
            ModalStep::Requeue
        } else {
            ModalStep::Handle
        },
{
    if result < 0 {
        return ModalStep::Leave;
    }
    if result == 0 {
        return ModalStep::Requeue;
    }
    ModalStep::Handle
}

pub const VK_RETURN: usize = 13;

pub const VK_ESCAPE: usize = 27;

/// The command that a key stands for in a modal window.
pub open spec fn modal_key_of(message: u32, wparam: usize) -> Option<i32> {
    if message == WM_KEYDOWN && wparam == VK_RETURN {
        Some(IDOK)
    } else if message == WM_KEYDOWN && wparam == VK_ESCAPE {
        Some(IDCANCEL)
    } else {
        None
    }
}

/// The command that a key stands for in a modal window, where IsDialogMessage
/// left the message alone: Enter is OK and Escape is Cancel.
pub fn modal_key(message: u32, wparam: usize) -> (r: Option<i32>)
    ensures
        r == modal_key_of(message, wparam),
{
    if message == WM_KEYDOWN {
        if wparam == VK_RETURN {
            return Some(IDOK);
        }
        if wparam == VK_ESCAPE {
            return Some(IDCANCEL);
        }
    }
    None
}

// ---------- commands ----------

/// A list box's notification of a double click.
pub const LBN_DBLCLK: u32 = 2;

/// A combo box's notification of a changed selection.
pub const CBN_SELCHANGE: u32 = 1;

/// What a control of the main window asks for.
#[derive(Debug, Clone, Copy, PartialEq, Eq, Structural)]
pub enum MainCommand {
    Launch,
    New,
    Edit,
    Delete,
    Shortcut,
    Autostart,
    Nothing,
}

/// What a control of the main window asks for when it notifies of `code`.
pub open spec fn main_command_of(id: i32, code: u32) -> MainCommand {
    if (id == IDC_LIST && code == LBN_DBLCLK) || id == IDC_RUN {
        MainCommand::Launch
    } else if id == IDC_NEW {
        MainCommand::New
    } else if id == IDC_EDIT {
        MainCommand::Edit
    } else if id == IDC_DEL {
        MainCommand::Delete
    } else if id == IDC_SHORTCUT {
        MainCommand::Shortcut
    } else if id == IDC_AUTOSTART {
        MainCommand::Autostart
    } else {
        MainCommand::Nothing
    }
}

pub fn main_command(id: i32, code: u32) -> (r: MainCommand)
    ensures
        r == main_command_of(id, code),
{
    match id {
        IDC_LIST => if code == LBN_DBLCLK {
            MainCommand::Launch
        } else {
            MainCommand::Nothing
        },
        IDC_RUN => MainCommand::Launch,
        IDC_NEW => MainCommand::New,
        IDC_EDIT => MainCommand::Edit,
        IDC_DEL => MainCommand::Delete,
        IDC_SHORTCUT => MainCommand::Shortcut,
        IDC_AUTOSTART => MainCommand::Autostart,
        _ => MainCommand::Nothing,
    }
}

/// What a control of the profile editor asks for.
#[derive(Debug, Clone, Copy, PartialEq, Eq, Structural)]
pub enum ProfileCommand {
    Add,
    Edit,
    Delete,
    MoveUp,
    MoveDown,
    Test,
    Accept,
    Cancel,
    Nothing,
}

/// What a control of the profile editor asks for when it notifies of `code`.
pub open spec fn profile_command_of(id: i32, code: u32) -> ProfileCommand {
    if (id == IDC_PE_ACTIONS && code == LBN_DBLCLK) || id == IDC_PE_EDIT {
        ProfileCommand::Edit
    } else if id == IDC_PE_ADD {
        ProfileCommand::Add
    } else if id == IDC_PE_DEL {
        ProfileCommand::Delete
    } else if id == IDC_PE_UP {
        ProfileCommand::MoveUp
    } else if id == IDC_PE_DOWN {
        ProfileCommand::MoveDown
    } else if id == IDC_PE_TEST {
        ProfileCommand::Test
    } else if id == IDOK {
        ProfileCommand::Accept
    } else if id == IDCANCEL {
        ProfileCommand::Cancel
    } else {
        ProfileCommand::Nothing
    }
}

pub fn profile_command(id: i32, code: u32) -> (r: ProfileCommand)
    ensures
        r == profile_command_of(id, code),
{
    match id {
        IDC_PE_ACTIONS => if code == LBN_DBLCLK {
            ProfileCommand::Edit
        } else {
            ProfileCommand::Nothing
        },
        IDC_PE_ADD => ProfileCommand::Add,
        IDC_PE_EDIT => ProfileCommand::Edit,
        IDC_PE_DEL => ProfileCommand::Delete,
        IDC_PE_UP => ProfileCommand::MoveUp,
        IDC_PE_DOWN => ProfileCommand::MoveDown,
        IDC_PE_TEST => ProfileCommand::Test,
        IDOK => ProfileCommand::Accept,
        IDCANCEL => ProfileCommand::Cancel,
        _ => ProfileCommand::Nothing,
    }
}

/// What a control of the action editor asks for.
#[derive(Debug, Clone, Copy, PartialEq, Eq, Structural)]
pub enum ActionCommand {
    ChangeType,
    Browse,
    Accept,
    Cancel,
    Nothing,
}

/// What a control of the action editor asks for when it notifies of `code`.
pub open spec fn action_command_of(id: i32, code: u32) -> ActionCommand {
    if id == IDC_AE_TYPE && code == CBN_SELCHANGE {
        ActionCommand::ChangeType
    } else if id == IDC_AE_BROWSE {
        ActionCommand::Browse
    } else if id == IDOK {
        ActionCommand::Accept
    } else if id == IDCANCEL {
        ActionCommand::Cancel
    } else {
        ActionCommand::Nothing
    }
}

pub fn action_command(id: i32, code: u32) -> (r: ActionCommand)
    ensures
        r == action_command_of(id, code),
{
    match id {
        IDC_AE_TYPE => if code == CBN_SELCHANGE {
            ActionCommand::ChangeType
        } else {
            ActionCommand::Nothing
        },
        IDC_AE_BROWSE => ActionCommand::Browse,
        IDOK => ActionCommand::Accept,
        IDCANCEL => ActionCommand::Cancel,
        _ => ActionCommand::Nothing,
    }
}

/// What was done to the rows of a list box.
#[derive(Debug, Clone, Copy, PartialEq, Eq, Structural)]
pub enum RowChange {
    /// They are there for the first time.
    Opened,
    /// One came behind the others.
    Added,
    /// The one at this index was edited, or is there after a move.
    Placed(usize),
    /// One was deleted.
    Deleted,
}

/// The row to keep selected after a change that left `rows` of them.
pub open spec fn row_after(change: RowChange, rows: usize) -> Option<usize> {
    match change {
        RowChange::Added => if rows == 0 {
            None
        } else {
            Some((rows - 1) as usize)
        },
        RowChange::Placed(i) => Some(i),
        RowChange::Opened | RowChange::Deleted => None,
    }
}

/// The row to keep selected after a change that left `rows` of them: the one
/// that was added, edited or moved, and none when the rows are new or one was
/// deleted.
pub fn row_to_keep(change: RowChange, rows: usize) -> (r: Option<usize>)
    ensures
        r == row_after(change, rows),
{
    match change {
        RowChange::Added => rows.checked_sub(1),
        RowChange::Placed(i) => Some(i),
        RowChange::Opened | RowChange::Deleted => None,
    }
}

/// The row that stays selected of those that there still are.
pub open spec fn kept_row(keep: Option<usize>, rows: usize) -> Option<usize> {
    match keep {
        Some(i) if i < rows => Some(i),
        _ => None,
    }
}

/// The row that a list box is left with selected when it is filled again:
/// the one to keep, if there still is such a row.
pub fn kept_selection(keep: Option<usize>, rows: usize) -> (r: Option<usize>)
    ensures
        r == kept_row(keep, rows),
{
    match keep {
        Some(i) => if i < rows {
            Some(i)
        } else {
            None
        },
        None => None,
    }
}

/// The selected row in what LB_GETCURSEL answered.
pub fn list_selection(answer: isize) -> (r: Option<usize>)
    ensures
        match r {
            Some(i) => i == answer,
            None => answer < 0,
        },
{
    if answer < 0 {
        None
    } else {
        Some(answer as usize)
    }
}

} // verus!
