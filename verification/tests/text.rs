//! Text, numbers, UTF-16 and paths.

use project_launcher::number::{
    decimal_text, hex_fixed_text, hex_lower_text, long_decimal_text, read_number,
};
use project_launcher::paths::join_path;
use project_launcher::text::{chars_of, string_of, trim_chars, trim_dots_spaces, upper_chars};
use project_launcher::utf16::{
    decode_until_nul, decode_utf16, decode_utf16_lossy, encode_utf16, encode_wide,
};

#[test]
fn numbers_are_written_and_read() {
    assert_eq!(decimal_text(0), "0");
    assert_eq!(decimal_text(u64::MAX), "18446744073709551615");
    assert_eq!(long_decimal_text(1 << 64), "18446744073709551616");
    assert_eq!(hex_fixed_text(0x1AB, 8), "000001AB");
    assert_eq!(hex_fixed_text(0x1AB, 2), "AB");
    assert_eq!(hex_lower_text(0xDEAD), "dead");
    for (text, value) in [
        ("18446744073709551615", Some(u64::MAX)),
        ("18446744073709551616", None),
        ("+7", Some(7)),
        ("007", Some(7)),
        ("+", None),
        ("", None),
        ("-1", None),
        ("1_000", None),
        ("１", None),
    ] {
        assert_eq!(read_number(&chars_of(text)), value, "{text}");
        assert_eq!(text.parse::<u64>().ok(), value, "{text}");
    }
}

#[test]
fn utf16_agrees_with_the_standard_library() {
    for text in ["", "a", "日本語", "🦀x", "\u{ffff}\u{10000}\u{10ffff}\0"] {
        let units: Vec<u16> = text.encode_utf16().collect();
        assert_eq!(encode_utf16(text), units);
        assert_eq!(decode_utf16(&units).unwrap(), text);
        assert_eq!(encode_wide(text).len(), units.len() + 1);
    }
    for units in [
        vec![0xD800],
        vec![0xDC00, 65],
        vec![0xD800, 0xD83E, 0xDD80],
        vec![65, 0xDBFF, 0xE000],
    ] {
        assert!(decode_utf16(&units).is_none());
        assert_eq!(decode_utf16_lossy(&units), String::from_utf16_lossy(&units));
    }
    assert_eq!(decode_until_nul(&[65, 0, 66]), "A");
    assert_eq!(decode_until_nul(&[65, 66]), "AB");
}

#[test]
fn trimming_agrees_with_the_standard_library() {
    for text in ["", "  ", " a b ", "\u{3000}x\u{85}", "\u{200b}x\u{feff}", "\u{1680}\u{2007}y"] {
        assert_eq!(string_of(&trim_chars(&chars_of(text))), text.trim());
    }
    for code in 0..0x11000u32 {
        if let Some(c) = char::from_u32(code) {
            let text = format!("{c}x");
            assert_eq!(string_of(&trim_chars(&chars_of(&text))), text.trim(), "{code:x}");
        }
    }
    assert_eq!(string_of(&trim_dots_spaces(&chars_of(". a. . "))), ". a");
    assert_eq!(string_of(&upper_chars(&chars_of("aZ09é"))), "AZ09é");
}

#[test]
fn paths_are_joined() {
    assert_eq!(join_path("C:\\a", "b"), "C:\\a\\b");
    assert_eq!(join_path("C:\\a\\", "b"), "C:\\a\\b");
    assert_eq!(join_path("C:/", "b"), "C:/b");
    assert_eq!(join_path("", "b"), "b");
    assert_eq!(join_path("C:", "b"), "C:b");
    assert_eq!(join_path("\\\\server\\share", "b"), "\\\\server\\share\\b");
    // Verbatim directories in their normal form stay as they are.
    assert_eq!(join_path("\\\\?\\C:\\a", "b"), "\\\\?\\C:\\a\\b");
    assert_eq!(join_path("\\\\?\\C:\\", "b\\c"), "\\\\?\\C:\\b\\c");
    // The others are left to the system.
    for dir in ["\\\\?\\C:\\a\\\\b", "\\\\?\\C:\\a/", "\\\\?\\", "\\\\?\\UNC\\"] {
        let joined = join_path(dir, "b\\c");
        assert!(joined.ends_with("b\\c") && joined.len() > dir.len(), "{joined}");
    }
}
