//! The profile manager.

use project_launcher::args;
use project_launcher::autostart::AutostartError;
use project_launcher::config::{
    is_valid_guid, Action, ActionKind, CommandShell, Config, Profile,
};
use project_launcher::editor::{
    action_line, fresh_action_id, initial_fields, kind_index, type_label, ActionEdit, Fields,
    ProfileEdit, TYPE_COUNT,
};
use project_launcher::gui::{
    autostart_changed, blank_profile, delete_question, forwarded_note, menu_location, new_guid,
    open_config, profile_line, run_directly, shortcut_note, start_empty, test_note, GuiError,
    LaunchStart, MainModel, Opening,
};
use project_launcher::ipc::{ForwardOutcome, IpcError};
use project_launcher::layout::{
    action_command, action_editor_controls, apply_type, centered_rect, command_code, command_id,
    dialog_event, field_layout, is_completion, kept_selection, list_selection, main_command,
    main_controls, modal_key, modal_step, profile_command, profile_editor_controls, row_to_keep,
    try_centered_rect,
    ActionCommand, Bounds, Browse, Change, ControlClass, DialogEvent, MainCommand, ModalStep,
    ProfileCommand, RowChange, WindowKind, CBN_SELCHANGE, IDCANCEL, IDC_AE_BROWSE, IDC_AE_F1, IDC_AE_L1,
    IDC_AE_SHELL, IDC_AE_TYPE, IDC_AUTOSTART, IDC_LIST, IDC_PE_ACTIONS, IDC_PE_DOWN, IDC_PE_UP,
    IDC_RUN, IDC_STATIC, IDC_STATUS, IDOK, LBN_DBLCLK, POST_MAGIC, WM_LAUNCH_DONE, WM_TEST_DONE,
};
use project_launcher::profile::{ActionOutcome, ActionStatus, ProfileResult, Recorder};
use project_launcher::shortcut::ShortcutError;
use project_launcher::storage::ConfigError;

const ID: &str = "{11111111-2222-3333-4444-555555555555}";

fn wait(id: &str) -> Action {
    Action {
        id: id.to_string(),
        disabled: false,
        kind: ActionKind::Wait { milliseconds: 5 },
    }
}

fn profile(actions: Vec<Action>) -> Profile {
    Profile { id: ID.to_string(), name: "Dev".to_string(), actions }
}

fn model() -> MainModel {
    MainModel {
        config: Config { version: 1, profiles: vec![profile(vec![])] },
        config_path: "C:\\config.json".to_string(),
        config_mtime: Some(1),
        running: false,
    }
}

// ---------- opening ----------

#[test]
fn a_missing_config_can_be_started_empty() {
    let io = || ConfigError::Io { path: "p".to_string(), source: "s".to_string() };
    match open_config("C:\\c.json", Err(io()), true) {
        Opening::Ask { question, error } => {
            assert_eq!(
                question,
                "設定ファイルが見つかりません。\r\nC:\\c.json\r\n\r\n新規作成しますか?"
            );
            assert!(matches!(start_empty(false, error), Err(GuiError::Config(_))));
            let config = start_empty(true, io()).unwrap();
            assert_eq!((config.version, config.profiles.len()), (1, 0));
            assert!(config.validate().is_ok());
        }
        other => panic!("{other:?}"),
    }
    match open_config("C:\\c.json", Err(io()), false) {
        Opening::Refuse { text, .. } => {
            assert_eq!(text, "設定ファイルを読み込めません。\r\ncannot read config file p: s")
        }
        other => panic!("{other:?}"),
    }
    assert!(matches!(
        open_config("p", Err(ConfigError::NoLocalAppData), true),
        Opening::Refuse { .. }
    ));
    assert!(matches!(open_config("p", Ok(model().config), false), Opening::Ready { .. }));
}

#[test]
fn gui_errors_have_exact_messages() {
    let e = GuiError::Win32 { api: "RegisterClassW", code: 1410 };
    assert_eq!(e.message(), "RegisterClassW failed (GetLastError=1410)");
    assert_eq!(GuiError::UnsupportedPlatform.message(), "the GUI requires Windows");
    assert_eq!(
        GuiError::Config(ConfigError::NoLocalAppData).message(),
        "%LOCALAPPDATA% is not set; cannot locate config.json"
    );
}

#[test]
fn new_guids_are_profile_ids() {
    let guid = new_guid(0, 0, 0xA, 0xB, 0xCD, &[1, 2, 3, 4, 5, 6, 7, 0xFF]).unwrap();
    assert_eq!(guid, "{0000000A-000B-00CD-0102-0304050607FF}");
    assert!(is_valid_guid(&guid));
    assert_eq!(
        new_guid(-1, 9, 0, 0, 0, &[0; 8]).unwrap_err().message(),
        "CoCreateGuid failed (GetLastError=9)"
    );
    let blank = blank_profile(guid);
    assert_eq!((blank.name.as_str(), blank.actions.len()), ("新しいプロファイル", 0));
}

// ---------- the main window ----------

#[test]
fn one_run_at_a_time() {
    let mut model = model();
    assert!(matches!(model.launch_selected(None), LaunchStart::Nothing));
    assert!(!model.running);
    match model.launch_selected(Some(0)) {
        LaunchStart::Run { id } => assert_eq!(id, ID),
        other => panic!("{other:?}"),
    }
    match model.launch_selected(Some(0)) {
        LaunchStart::Busy { text } => assert_eq!(text, "実行中です。"),
        other => panic!("{other:?}"),
    }
    // A forged completion changes nothing.
    assert!(!model.launch_done(1, 1));
    assert!(!model.launch_done(POST_MAGIC, 0));
    assert!(model.running);
    assert!(model.launch_done(POST_MAGIC, 1));
    assert!(!model.running);
    assert!(is_completion(0x504C_4452, -1));
}

#[test]
fn saving_asks_when_the_file_changed() {
    let mut model = model();
    assert!(model.save_question(Some(1)).is_none());
    assert_eq!(
        model.save_question(None).unwrap(),
        "設定ファイルが外部で変更されています。上書きしますか?"
    );
    let candidate = model.with_added(blank_profile("x".to_string()));
    assert_eq!(candidate.profiles.len(), 2);
    // A failed save keeps what the window holds.
    let text = model
        .saved(candidate.clone(), Err(ConfigError::NoLocalAppData), Some(2))
        .unwrap_err();
    assert_eq!(
        text,
        "config の保存に失敗しました: %LOCALAPPDATA% is not set; cannot locate config.json"
    );
    assert_eq!((model.config.profiles.len(), model.config_mtime), (1, Some(1)));
    assert!(model.saved(candidate, Ok(()), Some(2)).is_ok());
    assert_eq!((model.config.profiles.len(), model.config_mtime), (2, Some(2)));
    assert!(model.save_question(Some(2)).is_none());
}

#[test]
fn candidates_change_one_profile() {
    let model = model();
    let mut edited = profile(vec![wait("a")]);
    edited.name = "Edited".to_string();
    let candidate = model.with_edited(0, edited);
    assert_eq!(candidate.profiles[0].name, "Edited");
    assert!(candidate.validate().is_ok());
    assert_eq!(model.config.profiles[0].name, "Dev");
    assert_eq!(model.with_deleted(0).profiles.len(), 0);
    assert_eq!(profile_line(&profile(vec![wait("a")])), "Dev  (1 actions)");
    assert_eq!(
        delete_question(&profile(vec![])),
        "プロファイル 'Dev' を削除しますか?"
    );
}

#[test]
fn notes_on_runs() {
    let note = forwarded_note("p", Ok(ForwardOutcome::Delivered)).unwrap();
    assert_eq!(
        (note.ok, note.text.as_str()),
        (true, "プロファイル p の実行を Resident に転送しました。")
    );
    let note = forwarded_note("p", Ok(ForwardOutcome::Rejected)).unwrap();
    assert_eq!(
        (note.ok, note.text.as_str()),
        (false, "Resident がプロファイル p の要求を拒否しました。")
    );
    let note = forwarded_note("p", Err(IpcError::MalformedPayload)).unwrap();
    assert_eq!(note.text, "Resident への転送に失敗: empty or malformed IPC payload");
    assert!(forwarded_note("p", Ok(ForwardOutcome::NoResident)).is_none());

    let loaded = Ok(Config {
        version: 1,
        profiles: vec![profile(vec![wait("a"), wait("b")])],
    });
    let mut launcher = Recorder::new(vec![("a".to_string(), "no".to_string())]);
    let note = run_directly(&loaded, ID, &mut launcher);
    assert_eq!(launcher.actions.len(), 2);
    assert_eq!(
        (note.ok, note.text.as_str()),
        (false, "プロファイル 'Dev' を直接実行しました: 2 件中 1 件失敗。")
    );
    let note = run_directly(&loaded, "x", &mut launcher);
    assert_eq!(
        (note.ok, note.text.as_str()),
        (false, "プロファイル x が config にありません。")
    );
    let loaded = Err(ConfigError::NoLocalAppData);
    let note = run_directly(&loaded, ID, &mut launcher);
    assert_eq!(
        note.text,
        "config の読み込みに失敗: %LOCALAPPDATA% is not set; cannot locate config.json"
    );
    assert_eq!(launcher.actions.len(), 2);
}

#[test]
fn notes_on_test_launches() {
    let result = ProfileResult {
        outcomes: vec![
            ActionOutcome { action_id: "a".to_string(), status: ActionStatus::Succeeded },
            ActionOutcome {
                action_id: "b".to_string(),
                status: ActionStatus::Failed("boom".to_string()),
            },
        ],
        skipped_disabled: 1,
    };
    let note = test_note(&profile(vec![]), &result);
    assert!(!note.ok);
    assert_eq!(
        note.text,
        "プロファイル 'Dev' のテスト実行が完了しました。\r\n  [ok]     a\r\n  [FAILED] b: boom\r\n  \
         (1 件の無効アクションをスキップ)\r\n2 件中 1 件失敗"
    );
    let none = ProfileResult { outcomes: vec![], skipped_disabled: 0 };
    let note = test_note(&profile(vec![]), &none);
    assert!(note.ok);
    assert_eq!(
        note.text,
        "プロファイル 'Dev' のテスト実行が完了しました。\r\n0 件中 0 件失敗"
    );
}

#[test]
fn notes_on_shortcuts_and_autostart() {
    assert_eq!(menu_location(1), Some(args::ShortcutLocation::Desktop));
    assert_eq!(menu_location(2), Some(args::ShortcutLocation::StartMenu));
    assert_eq!(menu_location(3), Some(args::ShortcutLocation::Both));
    assert_eq!(menu_location(0), None);
    let made = vec![Ok("C:\\a.lnk".to_string()), Err(ShortcutError::UnsupportedPlatform)];
    let note = shortcut_note(&made);
    assert!(!note.ok);
    assert_eq!(
        note.text,
        "作成: C:\\a.lnk\r\n失敗: shortcut creation requires Windows\r\n"
    );
    assert!(shortcut_note(&vec![Ok("x".to_string())]).ok);
    assert!(autostart_changed(true, Ok(())).is_none());
    let (text, back) =
        autostart_changed(true, Err(AutostartError::NonUnicodeExePath)).unwrap();
    assert_eq!(text, "自動開始の設定に失敗しました: the exe path is not valid Unicode");
    assert!(!back);
}

// ---------- the profile editor ----------

#[test]
fn fresh_ids_are_the_first_free_ones() {
    assert_eq!(fresh_action_id(&vec![]), "action-1");
    assert_eq!(fresh_action_id(&vec![wait("action-2"), wait("x")]), "action-1");
    assert_eq!(
        fresh_action_id(&vec![wait("action-2"), wait("action-1"), wait("action-4")]),
        "action-3"
    );
}

#[test]
fn actions_are_added_edited_moved_and_deleted() {
    let mut edit = ProfileEdit::new(profile(vec![wait("a"), wait("b"), wait("c")]));
    let ids = |edit: &ProfileEdit| -> Vec<String> {
        edit.working.actions.iter().map(|a| a.id.clone()).collect()
    };
    assert_eq!(edit.move_action(0, true), None);
    assert_eq!(edit.move_action(2, false), None);
    assert_eq!(edit.move_action(0, false), Some(1));
    assert_eq!(ids(&edit), ["b", "a", "c"]);
    assert_eq!(edit.move_action(1, true), Some(0));
    assert_eq!(ids(&edit), ["a", "b", "c"]);
    edit.delete_action(1);
    assert_eq!(ids(&edit), ["a", "c"]);
    let opened = edit.edit_action(1);
    assert_eq!(opened.other_ids, ["a"]);
    assert_eq!(opened.action.id, "c");
    let added = edit.add_action();
    assert_eq!(added.other_ids, ["a", "c"]);
    assert_eq!(added.action.id, "action-1");
    assert!(added.finish().is_none());
    edit.push_action(wait("d"));
    edit.set_action(0, wait("z"));
    assert_eq!(ids(&edit), ["z", "c", "d"]);
}

#[test]
fn profiles_are_validated_on_ok() {
    let mut edit = ProfileEdit::new(profile(vec![wait("a"), wait("a")]));
    assert_eq!(edit.accept(String::new()).unwrap_err(), "名前を入力してください。");
    assert_eq!(
        edit.accept("n".to_string()).unwrap_err(),
        "保存できません: profile \"{11111111-2222-3333-4444-555555555555}\": \
         duplicate action id \"a\""
    );
    edit.delete_action(0);
    assert_eq!(
        edit.accept("  ".to_string()).unwrap_err(),
        "保存できません: profile \"{11111111-2222-3333-4444-555555555555}\" has an empty name"
    );
    assert!(!edit.accepted);
    assert!(edit.accept("Name".to_string()).is_ok());
    let done = edit.finish().unwrap();
    assert_eq!((done.name.as_str(), done.actions.len()), ("Name", 1));
}

#[test]
fn one_test_launch_at_a_time() {
    let mut edit = ProfileEdit::new(profile(vec![wait("a")]));
    assert_eq!(edit.start_test().unwrap().actions.len(), 1);
    assert!(edit.start_test().is_none());
    edit.test_done();
    assert!(edit.start_test().is_some());
    assert!(edit.finish().is_none());
}

#[test]
fn action_lines_sum_actions_up() {
    let line = |kind: ActionKind, disabled: bool| {
        action_line(&Action { id: "a".to_string(), disabled, kind })
    };
    assert_eq!(line(ActionKind::Wait { milliseconds: 500 }, true), "a  [wait: 500ms]  (無効)");
    let long = "x".repeat(41);
    assert_eq!(
        line(
            ActionKind::Command { shell: CommandShell::PowerShell, command: long.clone() },
            false
        ),
        format!("a  [command(powershell): {}]", "x".repeat(40))
    );
    assert_eq!(line(ActionKind::Url { url: "u:x".to_string() }, false), "a  [url: u:x]");
    assert_eq!(
        line(
            ActionKind::Application {
                path: "p".to_string(),
                arguments: "-x".to_string(),
                working_directory: None,
            },
            false
        ),
        "a  [application: p]"
    );
}

// ---------- the action editor ----------

fn fields(type_index: usize, first: &str) -> Fields {
    Fields {
        id: "new".to_string(),
        type_index,
        disabled: true,
        first: first.to_string(),
        second: String::new(),
        third: String::new(),
        shell_index: 0,
    }
}

fn editor() -> ActionEdit {
    ProfileEdit::new(profile(vec![wait("a"), wait("b")])).add_action()
}

#[test]
fn fields_are_refused_for_the_first_reason() {
    let mut edit = editor();
    let unnamed = Fields { id: String::new(), ..fields(9, "") };
    assert_eq!(edit.accept(&unnamed).unwrap_err(), "ID を入力してください。");
    let taken = Fields { id: "b".to_string(), ..fields(9, "") };
    assert_eq!(
        edit.accept(&taken).unwrap_err(),
        "ID 'b' はこのプロファイル内で使用済みです。"
    );
    assert_eq!(edit.accept(&fields(9, "")).unwrap_err(), "不明な種類です。");
    assert_eq!(
        edit.accept(&fields(5, "ten")).unwrap_err(),
        "待機時間はミリ秒の数値で入力してください。"
    );
    assert_eq!(
        edit.accept(&fields(5, "99999999999999999999")).unwrap_err(),
        "待機時間はミリ秒の数値で入力してください。"
    );
    assert_eq!(
        edit.accept(&fields(1, "")).unwrap_err(),
        "保存できません: path must not be empty"
    );
    assert!(!edit.accepted);
    assert_eq!(edit.action.id, "action-1");
    assert!(edit.accept(&fields(5, " +12\t")).is_ok());
    let action = edit.finish().unwrap();
    assert!(action.disabled);
    assert!(matches!(action.kind, ActionKind::Wait { milliseconds: 12 }));
}

#[test]
fn untouched_fields_give_the_action_back() {
    let kinds = [
        ActionKind::Application {
            path: "p".to_string(),
            arguments: "-x".to_string(),
            working_directory: Some("C:\\w".to_string()),
        },
        ActionKind::Application {
            path: "p".to_string(),
            arguments: String::new(),
            working_directory: None,
        },
        ActionKind::Folder { path: "d".to_string() },
        ActionKind::File { path: "f".to_string() },
        ActionKind::Url { url: "http:x".to_string() },
        ActionKind::Command { shell: CommandShell::PowerShell, command: "c".to_string() },
        ActionKind::Command { shell: CommandShell::Cmd, command: "c".to_string() },
        ActionKind::Wait { milliseconds: 86_400_000 },
    ];
    for kind in kinds {
        let action = Action { id: "x".to_string(), disabled: false, kind };
        let shown = initial_fields(&action);
        let built = shown.build_kind().unwrap();
        assert_eq!(format!("{built:?}"), format!("{:?}", action.kind));
        assert!(type_label(shown.type_index).len() > 2);
    }
    assert_eq!(TYPE_COUNT, 6);
    assert_eq!(type_label(0), "application");
    assert_eq!(type_label(5), "wait");
    assert_eq!(kind_index(&ActionKind::Url { url: String::new() }), 3);
}

// ---------- layout ----------

#[test]
fn windows_have_their_controls() {
    let main = main_controls("C:\\c.json");
    assert_eq!(main.len(), 8);
    assert_eq!((main[0].class, main[0].id), (ControlClass::List, IDC_LIST));
    assert_eq!((main[1].text.as_str(), main[1].id), ("実行", IDC_RUN));
    assert_eq!((main[7].text.as_str(), main[7].id), ("C:\\c.json", IDC_STATUS));
    let editor = profile_editor_controls("Dev", ID);
    assert_eq!(editor.len(), 14);
    assert_eq!((editor[1].text.as_str(), editor[3].text.as_str()), ("Dev", ID));
    assert_eq!(editor[3].class, ControlClass::ReadOnlyEdit);
    let action = action_editor_controls("a1");
    assert_eq!(action.len(), 16);
    assert_eq!(action[1].text, "a1");
    for controls in [main, editor, action] {
        for (i, a) in controls.iter().enumerate() {
            for b in &controls[i + 1..] {
                assert!(a.id == IDC_STATIC || a.id != b.id);
            }
        }
    }
}

#[test]
fn types_show_their_fields() {
    let app = field_layout(0);
    assert_eq!((app.first, app.second), (Some("パス"), Some("引数")));
    assert_eq!(app.third, Some("作業フォルダ (省略可)"));
    assert_eq!((app.shell, app.browse), (false, Some(Browse::File)));
    assert_eq!(field_layout(1).browse, Some(Browse::Folder));
    assert!(field_layout(4).shell);
    assert_eq!(field_layout(5).first, Some("待機時間 (ms)"));
    assert!(field_layout(6).first.is_none());
    let changes = apply_type(4, true);
    assert!(matches!(changes[0], Change::Text { id: IDC_AE_L1, text: "コマンド" }));
    assert!(matches!(changes[3], Change::Enabled { id: IDC_AE_F1 }));
    assert!(matches!(changes[9], Change::Visible { id: IDC_AE_SHELL, visible: true }));
    assert!(matches!(changes[10], Change::Visible { id: IDC_AE_BROWSE, visible: false }));
    assert_eq!(changes.len(), 11);
    let changes = apply_type(4, false);
    assert!(matches!(changes[11], Change::Text { id: IDC_AE_F1, text: "" }));
    assert_eq!(changes.len(), 14);
}

#[test]
fn windows_are_centered() {
    let screen = Bounds { left: 0, top: 0, right: 1920, bottom: 1080 };
    assert_eq!(centered_rect(576, 460, screen), (672, 310));
    let owner = Bounds { left: 100, top: 50, right: 301, bottom: 250 };
    assert_eq!(centered_rect(100, 100, owner), (150, 100));
    // Larger than its owner: rounded towards zero.
    assert_eq!(centered_rect(304, 201, owner), (49, 50));
    assert_eq!(try_centered_rect(304, 201, owner), Some((49, 50)));
    let wide = Bounds { left: -1, top: 0, right: i32::MAX, bottom: 0 };
    assert_eq!(try_centered_rect(0, 0, wide), None);
    let tall = Bounds { left: 0, top: 0, right: 10, bottom: i32::MAX };
    assert_eq!(try_centered_rect(10, -1, tall), None);
}

#[test]
fn gui_messages_and_commands_are_sorted() {
    assert_eq!(dialog_event(WindowKind::Main, WM_LAUNCH_DONE), DialogEvent::Done);
    assert_eq!(dialog_event(WindowKind::Main, WM_TEST_DONE), DialogEvent::Default);
    assert_eq!(dialog_event(WindowKind::ProfileEditor, WM_TEST_DONE), DialogEvent::Done);
    assert_eq!(dialog_event(WindowKind::ActionEditor, WM_TEST_DONE), DialogEvent::Default);
    assert_eq!(dialog_event(WindowKind::Main, 2), DialogEvent::Quit);
    assert_eq!(dialog_event(WindowKind::ProfileEditor, 2), DialogEvent::Detach);
    assert_eq!(dialog_event(WindowKind::Main, 0x81), DialogEvent::Attach);
    assert_eq!(dialog_event(WindowKind::Main, 1), DialogEvent::Create);
    assert_eq!(dialog_event(WindowKind::Main, 0x111), DialogEvent::Command);
    assert_eq!(dialog_event(WindowKind::Main, 0x10), DialogEvent::Close);
    assert_eq!((command_id(0x0002_0064), command_code(0x0002_0064)), (100, 2));
    assert_eq!(main_command(IDC_LIST, LBN_DBLCLK), MainCommand::Launch);
    assert_eq!(main_command(IDC_LIST, 1), MainCommand::Nothing);
    assert_eq!(main_command(IDC_AUTOSTART, 0), MainCommand::Autostart);
    assert_eq!(profile_command(IDC_PE_ACTIONS, LBN_DBLCLK), ProfileCommand::Edit);
    assert_eq!(profile_command(IDC_PE_UP, 0), ProfileCommand::MoveUp);
    assert_eq!(profile_command(IDC_PE_DOWN, 0), ProfileCommand::MoveDown);
    assert_eq!(profile_command(IDOK, 0), ProfileCommand::Accept);
    assert_eq!(action_command(IDC_AE_TYPE, CBN_SELCHANGE), ActionCommand::ChangeType);
    assert_eq!(action_command(IDC_AE_TYPE, 5), ActionCommand::Nothing);
    assert_eq!(action_command(IDCANCEL, 0), ActionCommand::Cancel);
    assert_eq!(modal_key(0x100, 13), Some(IDOK));
    assert_eq!(modal_key(0x100, 27), Some(IDCANCEL));
    assert_eq!(modal_key(0x101, 27), None);
    assert_eq!(modal_step(-1), ModalStep::Leave);
    assert_eq!(modal_step(0), ModalStep::Requeue);
    assert_eq!(modal_step(1), ModalStep::Handle);
    assert_eq!(kept_selection(Some(2), 2), None);
    assert_eq!(kept_selection(Some(1), 2), Some(1));
    assert_eq!(list_selection(-1), None);
    assert_eq!(list_selection(3), Some(3));
}

#[test]
fn different_guids_have_different_texts() {
    let text = |last: u8| new_guid(0, 0, 1, 2, 3, &[0, 0, 0, 0, 0, 0, 0, last]).unwrap();
    assert_ne!(text(0x10), text(0x01));
    assert_eq!(text(0x10), "{00000001-0002-0003-0000-000000000010}");
}

#[test]
fn edits_keep_the_config_valid() {
    let mut model = model();
    let added = blank_profile(new_guid(0, 0, 1, 2, 3, &[0; 8]).unwrap());
    let candidate = model.with_added(added);
    assert!(candidate.validate().is_ok());
    assert!(model.saved(candidate, Ok(()), None).is_ok());
    assert!(model.with_deleted(0).validate().is_ok());
    // The same GUID again is refused.
    let twice = model.with_added(blank_profile(ID.to_lowercase()));
    assert!(twice.validate().unwrap_err().contains("duplicate profile id"));
    for type_index in 0..TYPE_COUNT {
        let layout = field_layout(type_index);
        assert!(!layout.shell || layout.second.is_none());
    }
}

#[test]
fn rows_stay_selected_after_a_change() {
    assert_eq!(row_to_keep(RowChange::Added, 3), Some(2));
    assert_eq!(row_to_keep(RowChange::Added, 0), None);
    assert_eq!(row_to_keep(RowChange::Placed(1), 3), Some(1));
    assert_eq!(row_to_keep(RowChange::Deleted, 3), None);
    assert_eq!(row_to_keep(RowChange::Opened, 3), None);
}
