//! Shortcut names and contents.

use project_launcher::shortcut::{
    create, created, fields_set, initialized, known_folder, queried, saved, shortcut_file_name,
    Executable, ShortcutError, MAX_NAME_CHARS,
};

/// GUID-shaped ids as `profile.id` can hold them: braced or bare.
const ID_A: &str = "{11111111-2222-3333-4444-555555555555}";
const ID_A_BARE: &str = "11111111-2222-3333-4444-555555555555";
const ID_B: &str = "{66666666-7777-8888-9999-000000000000}";
/// ID_A reduced to its hex digits — the GUID fallback base name.
const ID_A_HEX: &str = "11111111222233334444555555555555";

#[test]
fn file_name_uses_profile_name() {
    assert_eq!(shortcut_file_name("Dev Env", ID_A), "Dev Env-11111111.lnk");
}

#[test]
fn file_name_replaces_illegal_chars() {
    assert_eq!(
        shortcut_file_name("a/b\\c:d*e?f\"g<h>i|j", ID_A),
        "a_b_c_d_e_f_g_h_i_j-11111111.lnk"
    );
}

#[test]
fn file_name_appends_id_tag() {
    // The tag is the id's first 8 hex digits, lowercased, with braces
    // and hyphens skipped; braced and bare ids give the same name.
    assert_eq!(
        shortcut_file_name("SmokeTest", "{ABCDEF12-3456-7890-abcd-ef1234567890}"),
        "SmokeTest-abcdef12.lnk"
    );
    assert_eq!(
        shortcut_file_name("SmokeTest", ID_A),
        shortcut_file_name("SmokeTest", ID_A_BARE)
    );
}

#[test]
fn file_name_tag_disambiguates_sanitized_collisions() {
    // "a:b" and "a|b" both sanitize to "a_b"; the per-profile tag keeps
    // a later shortcut from overwriting a different profile's .lnk.
    assert_eq!(shortcut_file_name("a:b", ID_A), "a_b-11111111.lnk");
    assert_eq!(shortcut_file_name("a|b", ID_B), "a_b-66666666.lnk");
    // Same name, different profiles: also distinct files.
    assert_ne!(
        shortcut_file_name("same", ID_A),
        shortcut_file_name("same", ID_B)
    );
}

#[test]
fn file_name_trims_trailing_dots_and_spaces() {
    // "name." / "name " cannot be created on Windows; trimming fixes it.
    assert_eq!(shortcut_file_name("name. ", ID_A), "name-11111111.lnk");
    assert_eq!(shortcut_file_name("name...", ID_A), "name-11111111.lnk");
}

#[test]
fn file_name_falls_back_to_guid() {
    let guid = format!("{ID_A_HEX}.lnk");
    assert_eq!(shortcut_file_name("", ID_A), guid);
    assert_eq!(shortcut_file_name("   ", ID_A), guid);
    assert_eq!(shortcut_file_name("...", ID_A), guid);
    assert_eq!(shortcut_file_name("///", ID_A), "___-11111111.lnk");
    // Reserved device names stay reserved even with an extension.
    assert_eq!(shortcut_file_name("con", ID_A), guid);
    assert_eq!(shortcut_file_name("LPT1", ID_A), guid);
    // Windows applies the reservation to the stem before the first dot,
    // so "con.foo.lnk" would be invalid too.
    assert_eq!(shortcut_file_name("con.foo", ID_A), guid);
    assert_eq!(shortcut_file_name("console", ID_A), "console-11111111.lnk");
}

#[test]
fn file_name_reserved_stem_ignores_trailing_space_or_dot() {
    // Windows strips trailing spaces/dots while normalizing, so the stem
    // of "con .foo.lnk" resolves to the reserved "con".
    let guid = format!("{ID_A_HEX}.lnk");
    assert_eq!(shortcut_file_name("con .foo", ID_A), guid);
    assert_eq!(shortcut_file_name("CON ..x", ID_A), guid);
    // An interior " ." stays legal when the stem is not reserved.
    assert_eq!(
        shortcut_file_name("con1 .foo", ID_A),
        "con1 .foo-11111111.lnk"
    );
}

#[test]
fn file_name_caps_long_names() {
    let long = "a".repeat(500);
    let name = shortcut_file_name(&long, ID_A);
    assert_eq!(name.len(), MAX_NAME_CHARS + "-11111111.lnk".len());
    // Truncation can expose a trailing dot/space, which is re-trimmed.
    let with_space = format!("{} .lnk", "a".repeat(MAX_NAME_CHARS - 1));
    assert_eq!(
        shortcut_file_name(&with_space, ID_A),
        format!("{}-11111111.lnk", "a".repeat(MAX_NAME_CHARS - 1))
    );
}

#[test]
fn file_name_cap_counts_utf16_units() {
    // A supplementary-plane char is two UTF-16 units; the cap must drop
    // it as a whole rather than splitting the surrogate pair.
    let name = shortcut_file_name(&"😀".repeat(200), ID_A);
    let stem = name.strip_suffix("-11111111.lnk").unwrap();
    assert_eq!(stem.encode_utf16().count(), MAX_NAME_CHARS);
    assert_eq!(stem.chars().count(), MAX_NAME_CHARS / 2);
    // A pair straddling the cap is excluded, not halved.
    let boundary = format!("{}😀tail", "a".repeat(MAX_NAME_CHARS - 1));
    assert_eq!(
        shortcut_file_name(&boundary, ID_A),
        format!("{}-11111111.lnk", "a".repeat(MAX_NAME_CHARS - 1))
    );
}

#[test]
fn file_name_maps_control_chars() {
    assert_eq!(shortcut_file_name("a\0b\tc", ID_A), "a_b_c-11111111.lnk");
}

fn wide(s: &str) -> Vec<u16> {
    s.encode_utf16().chain([0]).collect()
}

fn executable() -> Executable {
    Executable {
        path: "C:\\app\\ProjectLauncher.exe".encode_utf16().collect(),
        directory: Some("C:\\app".encode_utf16().collect()),
    }
}

#[test]
fn a_link_opens_the_profile() {
    let link = create("Dev", ID_A, Ok(executable()), Ok("C:\\Desktop".to_string())).unwrap();
    assert_eq!(link.folder, "C:\\Desktop");
    assert_eq!(link.file_name, "Dev-11111111.lnk");
    assert_eq!(link.target, wide("C:\\app\\ProjectLauncher.exe"));
    assert_eq!(link.icon, link.target);
    assert_eq!(link.work_dir, wide("C:\\app"));
    assert_eq!(link.arguments, wide(&format!("--profile {ID_A}")));
}

#[test]
fn a_link_is_refused_for_the_first_reason() {
    let folder = || Err(ShortcutError::UnsupportedPlatform);
    let message = |r: Result<_, ShortcutError>| match r {
        Ok(_) => panic!("a link was made"),
        Err(e) => e.message(),
    };
    assert_eq!(
        message(create("n", ID_A, Err("gone".to_string()), folder()).map(|_| ())),
        "cannot resolve the executable path: gone"
    );
    let rootless = Executable { path: vec![65], directory: None };
    assert_eq!(
        message(create("n", ID_A, Ok(rootless), folder()).map(|_| ())),
        "invalid input: executable has no parent directory"
    );
    assert_eq!(
        message(create("n", ID_A, Ok(executable()), folder()).map(|_| ())),
        "shortcut creation requires Windows"
    );
    assert_eq!(
        message(create("n", "a\0", Ok(executable()), Ok(String::new())).map(|_| ())),
        "invalid input: string contains an interior NUL byte: \"--profile a\\0\""
    );
}

#[test]
fn com_answers_are_checked_in_order() {
    assert!(initialized(1).is_ok());
    assert_eq!(
        initialized(-2147417850).unwrap_err().message(),
        "CoInitializeEx failed (HRESULT=0x80010106)"
    );
    assert!(created(0, false).is_ok());
    assert_eq!(
        created(0, true).unwrap_err().message(),
        "CoCreateInstance(ShellLink) failed (HRESULT=0xFFFFFFFF)"
    );
    assert_eq!(
        fields_set(0, -1, -2, 0).unwrap_err().message(),
        "IShellLinkW::SetArguments failed (HRESULT=0xFFFFFFFF)"
    );
    assert_eq!(
        fields_set(0, 0, 0, -2147467259).unwrap_err().message(),
        "IShellLinkW::SetIconLocation failed (HRESULT=0x80004005)"
    );
    assert!(fields_set(0, 1, 0, 0).is_ok());
    assert_eq!(
        queried(-5, true).unwrap_err().message(),
        "IShellLinkW::QueryInterface(IPersistFile) failed (HRESULT=0xFFFFFFFB)"
    );
    assert_eq!(
        saved(-2147024891).unwrap_err().message(),
        "IPersistFile::Save failed (HRESULT=0x80070005)"
    );
    assert!(saved(0).is_ok());
}

#[test]
fn known_folders_end_at_the_nul() {
    assert_eq!(known_folder(0, &[67, 58, 0, 99]).unwrap(), "C:");
    assert_eq!(known_folder(0, &[67, 0xD800, 0]).unwrap(), "C\u{fffd}");
    assert_eq!(
        known_folder(-1, &[]).unwrap_err().message(),
        "SHGetKnownFolderPath failed (HRESULT=0xFFFFFFFF)"
    );
}

#[test]
fn file_names_of_profiles_without_digits() {
    assert_eq!(shortcut_file_name("", "xyz"), "xyz.lnk");
    assert_eq!(shortcut_file_name("n", "xyz"), "n.lnk");
    assert_eq!(shortcut_file_name("n", "A1"), "n-a1.lnk");
}

/// Two profiles share a file only when both stems and both tags agree.
#[test]
fn file_names_tell_profiles_apart() {
    let a = "{11111111-2222-3333-4444-555555555555}";
    let b = "{11111111-2222-3333-4444-666666666666}";
    assert_eq!(shortcut_file_name("same", a), shortcut_file_name("same", b));
    assert_ne!(shortcut_file_name("", a), shortcut_file_name("", b));
    assert_ne!(shortcut_file_name("one", a), shortcut_file_name("two", b));
    assert_eq!(
        shortcut_file_name("n", a),
        shortcut_file_name("n", "11111111-2222-3333-4444-555555555555")
    );
}

#[test]
fn file_names_are_legal_whatever_the_profile_is_called() {
    for name in ["", "con", "aux.txt", "a\u{1}b", "CON .x", "x.", "...", &"🦀".repeat(90), "nul"] {
        let file = shortcut_file_name(name, ID_A);
        assert!(file.ends_with(".lnk"), "{file}");
        assert!(!file.chars().any(|c| "<>:\"/\\|?*".contains(c) || c < ' '), "{file}");
        assert!(file.encode_utf16().count() <= MAX_NAME_CHARS + 13, "{file}");
        let stem = file.split('.').next().unwrap().trim_end().to_uppercase();
        assert!(!["CON", "AUX", "NUL"].contains(&stem.as_str()), "{file}");
    }
}
