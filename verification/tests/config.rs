//! The config: validation, loading and saving.

use project_launcher::config::{
    guid_key, is_valid_guid, Action, ActionKind, CommandShell, Config, Profile, MAX_CONFIG_BYTES,
    MAX_WAIT_MS,
};
use project_launcher::storage::{
    config_path, strip_bom, ConfigError, ParseError, SavePaths, SaveStep,
};
use project_launcher::validation::{has_uri_scheme, is_absolute_windows_path, validate_action};
use serde_json::Value;

fn text(value: &Value, key: &str) -> Result<String, String> {
    match value.get(key).and_then(|v| v.as_str()) {
        Some(text) => Ok(text.to_string()),
        None => Err(format!("missing field `{key}`")),
    }
}

fn read_action(value: &Value) -> Result<Action, String> {
    let kind = match text(value, "type")?.as_str() {
        "application" => ActionKind::Application {
            path: text(value, "path")?,
            arguments: text(value, "arguments").unwrap_or_default(),
            working_directory: text(value, "working_directory").ok(),
        },
        "folder" => ActionKind::Folder { path: text(value, "path")? },
        "file" => ActionKind::File { path: text(value, "path")? },
        "url" => ActionKind::Url { url: text(value, "url")? },
        "command" => ActionKind::Command {
            shell: match text(value, "shell")?.as_str() {
                "cmd" => CommandShell::Cmd,
                "powershell" => CommandShell::PowerShell,
                other => return Err(format!("unknown variant `{other}`")),
            },
            command: text(value, "command")?,
        },
        "wait" => ActionKind::Wait {
            milliseconds: value["milliseconds"].as_u64().ok_or("missing field `milliseconds`")?,
        },
        other => return Err(format!("unknown variant `{other}`")),
    };
    Ok(Action {
        id: text(value, "id")?,
        disabled: value["disabled"].as_bool().unwrap_or(false),
        kind,
    })
}

fn items<'a>(value: &'a Value, key: &str) -> &'a [Value] {
    match value[key].as_array() {
        Some(items) => items.as_slice(),
        None => &[],
    }
}

/// Reads a config document, for the parts of the JSON that the tests use.
fn read_config(json: &str) -> Result<Config, String> {
    let value: Value = serde_json::from_str(json).map_err(|e| e.to_string())?;
    let mut profiles = Vec::new();
    for p in items(&value, "profiles") {
        let mut actions = Vec::new();
        for a in items(p, "actions") {
            actions.push(read_action(a)?);
        }
        profiles.push(Profile { id: text(p, "id")?, name: text(p, "name")?, actions });
    }
    let version = value["version"].as_u64().ok_or("missing field `version`")?;
    Ok(Config { version: version as u32, profiles })
}

fn parse(json: &str) -> Result<Config, ParseError> {
    Config::parse(json, read_config)
}

const VALID: &str = r#"{
    "version": 1,
    "profiles": [
        {
            "id": "{11111111-2222-3333-4444-555555555555}",
            "name": "Dev",
            "actions": [
                { "id": "a1", "type": "wait", "milliseconds": 100 },
                { "id": "a2", "type": "url", "url": "https://example.com", "disabled": true },
                { "id": "a3", "type": "application", "path": "C:\\Tools\\app.exe", "arguments": "-x 1" },
                { "id": "a4", "type": "command", "shell": "powershell", "command": "Get-Date" }
            ]
        }
    ]
}"#;

#[test]
fn parses_valid_config() {
    let config = parse(VALID).unwrap();
    assert_eq!(config.version, 1);
    assert_eq!(config.profiles.len(), 1);
    assert_eq!(config.profiles[0].actions.len(), 4);
    assert!(config.profiles[0].actions[1].disabled);
}

#[test]
fn rejects_unknown_version() {
    let err = parse(r#"{"version": 99, "profiles": []}"#)
        .unwrap_err()
        .message();
    assert!(err.contains("unsupported config version"), "{err}");
}

#[test]
fn rejects_broken_json() {
    assert!(parse("{ not json").is_err());
}

#[test]
fn rejects_invalid_profile_guid() {
    let err = parse(
        r#"{"version":1,"profiles":[{"id":"not-a-guid","name":"x","actions":[]}]}"#,
    )
    .unwrap_err()
    .message();
    assert!(err.contains("not a valid GUID"), "{err}");
}

#[test]
fn rejects_duplicate_profile_ids_case_insensitive() {
    let err = parse(
        r#"{"version":1,"profiles":[
            {"id":"AAAAAAAA-2222-3333-4444-555555555555","name":"x","actions":[]},
            {"id":"aaaaaaaa-2222-3333-4444-555555555555","name":"y","actions":[]}
        ]}"#,
    )
    .unwrap_err()
    .message();
    assert!(err.contains("duplicate profile id"), "{err}");
}

#[test]
fn rejects_duplicate_action_ids() {
    let err = parse(
        r#"{"version":1,"profiles":[{"id":"11111111-2222-3333-4444-555555555555","name":"x","actions":[
            {"id":"a","type":"wait","milliseconds":1},
            {"id":"a","type":"wait","milliseconds":2}
        ]}]}"#,
    )
    .unwrap_err()
    .message();
    assert!(err.contains("duplicate action id"), "{err}");
}

#[test]
fn rejects_empty_application_path() {
    let err = parse(
        r#"{"version":1,"profiles":[{"id":"11111111-2222-3333-4444-555555555555","name":"x","actions":[
            {"id":"a","type":"application","path":""}
        ]}]}"#,
    )
    .unwrap_err()
    .message();
    assert!(err.contains("must not be empty"), "{err}");
}

#[test]
fn rejects_huge_wait() {
    let err = parse(
        r#"{"version":1,"profiles":[{"id":"11111111-2222-3333-4444-555555555555","name":"x","actions":[
            {"id":"a","type":"wait","milliseconds":99999999999}
        ]}]}"#,
    )
    .unwrap_err()
    .message();
    assert!(err.contains("exceeds the maximum"), "{err}");
}

#[test]
fn rejects_url_without_scheme() {
    let err = parse(
        r#"{"version":1,"profiles":[{"id":"11111111-2222-3333-4444-555555555555","name":"x","actions":[
            {"id":"a","type":"url","url":"example.com"}
        ]}]}"#,
    )
    .unwrap_err()
    .message();
    assert!(err.contains("no scheme"), "{err}");
}

/// `C:\dir` must not be mistaken for scheme `C`; such paths belong in a
/// file/folder action.
#[test]
fn rejects_windows_path_as_url() {
    for path in ["C:\\work", "C:/work", "D:"] {
        let json = format!(
            r#"{{"version":1,"profiles":[{{"id":"11111111-2222-3333-4444-555555555555","name":"x","actions":[
                {{"id":"a","type":"url","url":"{}"}}
            ]}}]}}"#,
            path.replace('\\', "\\\\")
        );
        let err = parse(&json).unwrap_err().message();
        assert!(err.contains("no scheme"), "{path}: {err}");
    }
}

#[test]
fn accepts_mailto_and_non_http_schemes() {
    parse(
        r#"{"version":1,"profiles":[{"id":"11111111-2222-3333-4444-555555555555","name":"x","actions":[
            {"id":"a","type":"url","url":"mailto:a@b.c"}
        ]}]}"#,
    )
    .unwrap();
}

#[test]
fn config_rejects_interior_nul() {
    let err = parse(
        "{\"version\":1,\"profiles\":[{\"id\":\"11111111-2222-3333-4444-555555555555\",\"name\":\"x\",\"actions\":[{\"id\":\"a\",\"type\":\"file\",\"path\":\"C:\\\\a\\u0000b.txt\"}]}]}",
    )
    .unwrap_err()
    .message();
    assert!(err.contains("NUL"), "{err}");
}

#[test]
fn guid_validation() {
    assert!(is_valid_guid("11111111-2222-3333-4444-555555555555"));
    assert!(is_valid_guid("{11111111-2222-3333-4444-555555555555}"));
    assert!(is_valid_guid("abcdefab-0000-ffff-9999-000000000000"));
    assert!(!is_valid_guid("{11111111-2222-3333-4444-555555555555"));
    assert!(!is_valid_guid("11111111-2222-3333-4444-55555555555"));
    assert!(!is_valid_guid("11111111-2222-3333-4444-55555555555g"));
    assert!(!is_valid_guid("11111111222233334444555555555555"));
    assert!(!is_valid_guid(""));
}

/// `{X}` and `X` name the same profile for `find_profile`, so the
/// duplicate check must catch them too — otherwise the second entry
/// would be silently unreachable.
#[test]
fn rejects_duplicate_profile_ids_braced_vs_bare() {
    let err = parse(
        r#"{"version":1,"profiles":[
            {"id":"{AAAAAAAA-2222-3333-4444-555555555555}","name":"x","actions":[]},
            {"id":"aaaaaaaa-2222-3333-4444-555555555555","name":"y","actions":[]}
        ]}"#,
    )
    .unwrap_err()
    .message();
    assert!(err.contains("duplicate profile id"), "{err}");
}

#[test]
fn rejects_whitespace_only_profile_name() {
    let err = parse(
        r#"{"version":1,"profiles":[{"id":"11111111-2222-3333-4444-555555555555","name":"   ","actions":[]}]}"#,
    )
    .unwrap_err()
    .message();
    assert!(err.contains("empty name"), "{err}");
}

/// Same rule as `actions::build_command_line`: the path is wrapped in
/// quotes at launch, so an embedded quote could never work.
#[test]
fn rejects_quoted_application_path() {
    let err = parse(
        r#"{"version":1,"profiles":[{"id":"11111111-2222-3333-4444-555555555555","name":"x","actions":[
            {"id":"a","type":"application","path":"C:\\Tools\"bad\\app.exe"}
        ]}]}"#,
    )
    .unwrap_err()
    .message();
    assert!(err.contains("must not contain a quote"), "{err}");
}

/// `"C:\dir\" arg` would escape the closing quote added at launch.
#[test]
fn rejects_application_path_ending_with_separator() {
    for path in ["C:\\Tools\\", "C:/Tools/"] {
        let json = format!(
            r#"{{"version":1,"profiles":[{{"id":"11111111-2222-3333-4444-555555555555","name":"x","actions":[
                {{"id":"a","type":"application","path":"{}"}}
            ]}}]}}"#,
            path.replace('\\', "\\\\")
        );
        let err = parse(&json).unwrap_err().message();
        assert!(
            err.contains("must not end with a path separator"),
            "{path}: {err}"
        );
    }
}

fn config_with_working_dir(dir: &str) -> String {
    format!(
        r#"{{"version":1,"profiles":[{{"id":"11111111-2222-3333-4444-555555555555","name":"x","actions":[
            {{"id":"a","type":"application","path":"C:\\Tools\\app.exe","working_directory":"{}"}}
        ]}}]}}"#,
        dir.replace('\\', "\\\\")
    )
}

/// A relative working directory resolves against the launcher's own
/// CWD at run time, so it is rejected at validation time.
#[test]
fn rejects_relative_working_directory() {
    for dir in ["Tools", ".\\Tools", "sub\\dir", "C:Tools"] {
        let err = parse(&config_with_working_dir(dir))
            .unwrap_err()
            .message();
        assert!(err.contains("must be an absolute path"), "{dir}: {err}");
    }
}

#[test]
fn accepts_absolute_working_directory() {
    for dir in ["C:\\Tools", "D:/Tools", "\\\\server\\share"] {
        parse(&config_with_working_dir(dir)).unwrap_or_else(|e| panic!("{dir}: {}", e.message()));
    }
}


/// The JSON text of a config.
fn write_config(config: &Config) -> String {
    let mut profiles = Vec::new();
    for p in &config.profiles {
        let mut actions = Vec::new();
        for a in &p.actions {
            let mut object = serde_json::Map::new();
            object.insert("id".to_string(), Value::from(a.id.clone()));
            object.insert("disabled".to_string(), Value::from(a.disabled));
            let mut put = |key: &str, value: &str| {
                object.insert(key.to_string(), Value::from(value));
            };
            match &a.kind {
                ActionKind::Application { path, arguments, working_directory } => {
                    put("type", "application");
                    put("path", path);
                    put("arguments", arguments);
                    if let Some(dir) = working_directory {
                        put("working_directory", dir);
                    }
                }
                ActionKind::Folder { path } => {
                    put("type", "folder");
                    put("path", path);
                }
                ActionKind::File { path } => {
                    put("type", "file");
                    put("path", path);
                }
                ActionKind::Url { url } => {
                    put("type", "url");
                    put("url", url);
                }
                ActionKind::Command { shell, command } => {
                    put("type", "command");
                    put(
                        "shell",
                        match shell {
                            CommandShell::Cmd => "cmd",
                            CommandShell::PowerShell => "powershell",
                        },
                    );
                    put("command", command);
                }
                ActionKind::Wait { milliseconds } => {
                    put("type", "wait");
                    object.insert("milliseconds".to_string(), Value::from(*milliseconds));
                }
            }
            actions.push(Value::Object(object));
        }
        let mut object = serde_json::Map::new();
        object.insert("id".to_string(), Value::from(p.id.clone()));
        object.insert("name".to_string(), Value::from(p.name.clone()));
        object.insert("actions".to_string(), Value::Array(actions));
        profiles.push(Value::Object(object));
    }
    let mut object = serde_json::Map::new();
    object.insert("version".to_string(), Value::from(config.version));
    object.insert("profiles".to_string(), Value::Array(profiles));
    serde_json::to_string_pretty(&Value::Object(object)).unwrap()
}

/// A file and its temp sibling, in memory.
struct Disk {
    target: Option<String>,
    temp: Option<String>,
}

fn paths() -> SavePaths {
    SavePaths::of("C:\\data\\config.json", Some("C:\\data".to_string()))
}

fn save(config: &Config, disk: &mut Disk) -> Result<(), ConfigError> {
    let paths = paths();
    let mut step = config.save(&paths.target);
    let mut text = String::new();
    loop {
        match &step {
            SaveStep::Serialize => text = write_config(config),
            SaveStep::CreateDirectory => {}
            SaveStep::WriteTemp => disk.temp = Some(text.clone()),
            SaveStep::Rename => disk.target = disk.temp.take(),
            SaveStep::RemoveTemp { .. } => disk.temp = None,
            SaveStep::Saved => return Ok(()),
            SaveStep::Failed { .. } => {}
        }
        if let SaveStep::Failed { error } = step {
            return Err(error);
        }
        step = paths.next(step, Ok(()));
    }
}

fn load(disk: &Disk) -> Result<Config, ConfigError> {
    let text = disk.target.clone().unwrap();
    let size = Ok(text.len() as u64);
    Config::load("C:\\data\\config.json", size, |_path| Ok(text), read_config)
}

#[test]
fn save_roundtrips_and_refuses_invalid() {
    let mut disk = Disk { target: None, temp: None };
    let config = parse(VALID).unwrap();

    save(&config, &mut disk).unwrap();
    // The saved file parses back to an equivalent config.
    let reloaded = load(&disk).unwrap();
    assert_eq!(reloaded.profiles.len(), config.profiles.len());
    assert_eq!(reloaded.profiles[0].id, config.profiles[0].id);
    assert_eq!(
        reloaded.profiles[0].actions.len(),
        config.profiles[0].actions.len()
    );

    // An invalid config must be refused before anything is written.
    let mut bad = config.clone();
    bad.profiles[0].id = "not-a-guid".to_string();
    assert!(save(&bad, &mut disk).is_err());
    // ...and the previous file is still intact.
    assert_eq!(load(&disk).unwrap().profiles.len(), 1);
    assert!(disk.temp.is_none());
}

/// Notepad's "UTF-8 with BOM" save prepends U+FEFF; accept it.
#[test]
fn load_accepts_utf8_bom() {
    let disk = Disk { target: Some(format!("\u{feff}{VALID}")), temp: None };
    let config = load(&disk).unwrap();
    assert_eq!(config.profiles.len(), 1);
    assert_eq!(strip_bom("\u{feff}x"), "x");
    assert_eq!(strip_bom("x\u{feff}"), "x\u{feff}");
}

#[test]
fn load_rejects_oversized_file() {
    // A file just over the cap; its contents are never read.
    let err = Config::load(
        "config.json",
        Ok(MAX_CONFIG_BYTES + 1),
        |_path| panic!("the file was read"),
        read_config,
    )
    .unwrap_err();
    assert!(matches!(err, ConfigError::TooLarge { .. }), "{err:?}");
    assert!(err.message().contains("too large"), "{}", err.message());
    assert_eq!(
        err.message(),
        "config file config.json is too large (1048577 bytes; maximum is 1048576)"
    );
    // A file of exactly the cap is read.
    assert!(Config::load("c", Ok(MAX_CONFIG_BYTES), |_| Ok(VALID.to_string()), read_config).is_ok());
}

#[test]
fn load_reports_each_failure() {
    let err = Config::load("p", Err("denied".to_string()), |_| Ok(String::new()), read_config)
        .unwrap_err();
    assert_eq!(err.message(), "cannot read config file p: denied");
    let err = Config::load("p", Ok(1), |path| Err(format!("no {path}")), read_config).unwrap_err();
    assert_eq!(err.message(), "cannot read config file p: no p");
    let err = Config::load("p", Ok(1), |_| Ok("x".to_string()), |_| Err("bad".to_string()))
        .unwrap_err();
    assert_eq!(err.message(), "config file p is not valid JSON: bad");
    let err = Config::load("p", Ok(1), |_| Ok("{\"version\":2}".to_string()), read_config)
        .unwrap_err();
    assert_eq!(
        err.message(),
        "config file p is invalid: unsupported config version 2 (supported: 1)"
    );
}

#[test]
fn default_location_is_below_local_app_data() {
    assert!(matches!(config_path(None), Err(ConfigError::NoLocalAppData)));
    assert_eq!(
        ConfigError::NoLocalAppData.message(),
        "%LOCALAPPDATA% is not set; cannot locate config.json"
    );
    assert_eq!(
        config_path(Some("C:\\Users\\me\\AppData\\Local")).unwrap(),
        "C:\\Users\\me\\AppData\\Local\\ProjectLauncher\\config.json"
    );
    let mut asked = String::new();
    let loaded = Config::load_default(
        Some("C:\\L\\"),
        |path| {
            asked = path.to_string();
            Ok(10)
        },
        |_path| Ok(VALID.to_string()),
        read_config,
    );
    assert_eq!(loaded.unwrap().profiles.len(), 1);
    assert_eq!(asked, "C:\\L\\ProjectLauncher\\config.json");
    assert!(Config::load_default(None, |_| Ok(1), |_| Ok(String::new()), read_config).is_err());
}

#[test]
fn save_reports_the_step_that_failed() {
    let p = paths();
    let fail = |step: SaveStep| match p.next(step, Err("full".to_string())) {
        SaveStep::Failed { error } => error.message(),
        other => panic!("{other:?}"),
    };
    assert_eq!(
        fail(SaveStep::Serialize),
        "cannot serialize config for C:\\data\\config.json: full"
    );
    assert_eq!(fail(SaveStep::CreateDirectory), "cannot read config file C:\\data: full");
    assert_eq!(
        fail(SaveStep::WriteTemp),
        "cannot read config file C:\\data\\config.json.tmp: full"
    );
    // A failed rename removes the temp file and reports the rename.
    let step = p.next(SaveStep::Rename, Err("locked".to_string()));
    assert!(matches!(&step, SaveStep::RemoveTemp { cause } if cause == "locked"));
    match p.next(step, Err("gone".to_string())) {
        SaveStep::Failed { error } => assert_eq!(
            error.message(),
            "cannot read config file C:\\data\\config.json: locked"
        ),
        other => panic!("{other:?}"),
    }
}

/// The temp file is a sibling of the target, and another file wherever the
/// target ends in the name of one.
#[test]
fn saves_go_through_a_sibling() {
    assert_eq!(paths().temp, "C:\\data\\config.json.tmp");
    for (target, temp) in [
        ("config", "config.json.tmp"),
        ("a.b/config.old", "a.b/config.json.tmp"),
        ("a.b/config", "a.b/config.json.tmp"),
        ("a.b\\config.old", "a.b\\config.json.tmp"),
        ("x.json.tmp", "x.json.json.tmp"),
        (".json", ".json.json.tmp"),
        ("d\\x.", "d\\x.json.tmp"),
        ("C:\\data\\config", "C:\\data\\config.json.tmp"),
        ("C:config", "C:config.json.tmp"),
        ("\\\\server\\share\\config", "\\\\server\\share\\config.json.tmp"),
        ("\\\\server\\share.d\\x.json", "\\\\server\\share.d\\x.json.tmp"),
        ("\\\\?\\C:\\d\\x.json", "\\\\?\\C:\\d\\x.json.tmp"),
        ("...txt", "...json.tmp"),
        // What comes behind the name does not count.
        ("d/config.json/", "d/config.json.tmp"),
        ("d/config.json/.", "d/config.json.tmp"),
        // No file is named here.
        ("", ""),
        ("..", ".."),
        ("a/..", "a/.."),
        ("/", "/"),
    ] {
        let p = SavePaths::of(target, None);
        assert_eq!((p.target.as_str(), p.temp.as_str()), (target, temp));
        assert!(p.directory.is_none());
    }
}

/// Whatever step fails, the target keeps its text.
#[test]
fn a_failed_save_keeps_the_old_file() {
    for failing in 0..4 {
        let mut target = "old";
        let mut temp = None;
        let mut step = parse(VALID).unwrap().save(&paths().target);
        let mut count = 0;
        loop {
            let works = count != failing;
            match &step {
                SaveStep::WriteTemp if works => temp = Some("new"),
                SaveStep::WriteTemp => temp = Some("n"),
                SaveStep::Rename if works => target = temp.take().unwrap(),
                SaveStep::RemoveTemp { .. } => temp = None,
                SaveStep::Saved | SaveStep::Failed { .. } => break,
                _ => {}
            }
            let outcome = if works { Ok(()) } else { Err("no".to_string()) };
            step = paths().next(step, outcome);
            count += 1;
        }
        assert!(matches!(step, SaveStep::Failed { .. }), "{failing}");
        assert_eq!(target, "old");
    }
}

#[test]
fn save_without_a_directory_goes_on_to_the_temp_file() {
    let p = SavePaths::of("config.json", None);
    assert!(matches!(p.next(SaveStep::Serialize, Ok(())), SaveStep::WriteTemp));
    assert!(matches!(paths().next(SaveStep::Serialize, Ok(())), SaveStep::CreateDirectory));
}

fn action(kind: ActionKind) -> Action {
    Action { id: "a".to_string(), disabled: false, kind }
}

#[test]
fn action_rules_have_exact_messages() {
    let check = |kind: ActionKind| validate_action(&action(kind)).unwrap_err();
    assert_eq!(
        check(ActionKind::Wait { milliseconds: MAX_WAIT_MS + 1 }),
        "wait of 86400001ms exceeds the maximum of 86400000ms"
    );
    assert!(validate_action(&action(ActionKind::Wait { milliseconds: MAX_WAIT_MS })).is_ok());
    assert_eq!(
        check(ActionKind::Url { url: "x\"y".to_string() }),
        "url \"x\\\"y\" has no scheme (e.g. https:)"
    );
    assert_eq!(check(ActionKind::Folder { path: String::new() }), "path must not be empty");
    assert_eq!(
        check(ActionKind::Command { shell: CommandShell::Cmd, command: "a\0b".to_string() }),
        "command contains an interior NUL byte"
    );
    assert_eq!(
        check(ActionKind::Application {
            path: "C:\\a.exe".to_string(),
            arguments: String::new(),
            working_directory: Some(String::new()),
        }),
        "working_directory must not be empty"
    );
    let unnamed = Action {
        id: String::new(),
        disabled: false,
        kind: ActionKind::Wait { milliseconds: 0 },
    };
    assert_eq!(validate_action(&unnamed).unwrap_err(), "action id must not be empty");
}

#[test]
fn validation_names_the_profile() {
    let profile = |id: &str, name: &str| Profile {
        id: id.to_string(),
        name: name.to_string(),
        actions: vec![action(ActionKind::File { path: String::new() })],
    };
    let config = Config {
        version: 1,
        profiles: vec![profile("11111111-2222-3333-4444-555555555555", "x")],
    };
    assert_eq!(
        config.validate().unwrap_err(),
        "profile \"11111111-2222-3333-4444-555555555555\": path must not be empty"
    );
    let config = Config { version: 1, profiles: vec![profile("x\n", "x")] };
    assert_eq!(config.validate().unwrap_err(), "profile id \"x\\n\" is not a valid GUID");
    // White space beyond ASCII is blank too.
    let config = Config {
        version: 1,
        profiles: vec![profile("11111111-2222-3333-4444-555555555555", "\u{3000}\t")],
    };
    assert_eq!(
        config.validate().unwrap_err(),
        "profile \"11111111-2222-3333-4444-555555555555\" has an empty name"
    );
}

#[test]
fn schemes_and_paths() {
    assert!(has_uri_scheme("ms-settings:display"));
    assert!(!has_uri_scheme("1a:x"));
    assert!(!has_uri_scheme(""));
    assert!(is_absolute_windows_path("c:/x"));
    assert!(!is_absolute_windows_path("\\x"));
    assert_eq!(guid_key("{ab}"), "AB");
    assert_eq!(guid_key("{ab"), "{AB");
}

#[test]
fn cloned_configs_are_equal_in_every_field() {
    let config = parse(VALID).unwrap();
    assert_eq!(write_config(&config.clone()), write_config(&config));
}
