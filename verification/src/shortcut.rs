//! Windows shortcut (.lnk) creation for profiles.
//!
//! A shortcut targets `ProjectLauncher.exe --profile <GUID>`, so launching it
//! goes through the same code path as the command line: forward to the
//! resident when one is running, run directly otherwise.
//!
//! What a shortcut is called and holds is decided here, and which answer of
//! COM is a failure; the COM calls themselves are the caller's.

use crate::config::{guid_key_of, is_bare_guid, is_guid, is_guid_hyphen, unbraced};
use crate::number::{hex_fixed, hex_fixed_text};
use crate::text::{
    chars_of, debug_string, debug_text, has_char, hex, is_hex, lower, lower_chars, same_text,
    slice_of, string_of, to_lower, to_upper, trim_dots_spaces, trim_end, trim_end_cuts, upper,
    upper_chars,
};
use crate::utf16::{
    char_is_scalar, decode_until_nul, encode_wide, units_of_ascii, until_nul, utf16, utf16_char,
    utf16_concat, utf16_text_lossy, wide,
};
use vstd::prelude::*;
use vstd::string::*;

verus! {

/// Where a shortcut .lnk is written.
#[derive(Debug, Clone, Copy, PartialEq, Eq, Structural)]
pub enum ShortcutLocation {
    Desktop,
    StartMenu,
}

#[derive(Debug)]
pub enum ShortcutError {
    /// A value cannot be handed to the OS safely (e.g. interior NUL).
    InvalidInput(String),
    /// A COM or shell call failed; `hr` is the raw HRESULT.
    Com { api: &'static str, hr: i32 },
    /// Resolving the running executable's path failed.
    Io(String),
    /// The host OS does not provide the required COM API.
    UnsupportedPlatform,
}

/// The bits of an HRESULT, read as an unsigned number.
pub open spec fn hresult_bits(hr: i32) -> nat {
    if hr < 0 {
        (hr + 0x1_0000_0000) as nat
    } else {
        hr as nat
    }
}

/// The text of a shortcut error.
pub open spec fn shortcut_error_text(e: ShortcutError) -> Seq<char> {
    match e {
        ShortcutError::InvalidInput(m) => "invalid input: "@ + m@,
        ShortcutError::Com { api, hr } => {
            api@ + " failed (HRESULT=0x"@ + hex_fixed(hresult_bits(hr), 8) + ")"@
        },
        ShortcutError::Io(e) => "cannot resolve the executable path: "@ + e@,
        ShortcutError::UnsupportedPlatform => "shortcut creation requires Windows"@,
    }
}

impl ShortcutError {
    pub fn message(&self) -> (r: String)
        ensures
            r@ == shortcut_error_text(*self),
    {
        match self {
            ShortcutError::InvalidInput(m) => "invalid input: ".to_owned().concat(m.as_str()),
            ShortcutError::Com { api, hr } => {
                let bits: u64 = if *hr < 0 {
                    (*hr as i64 + 0x1_0000_0000) as u64
                } else {
                    *hr as u64
                };
                (*api).to_owned().concat(" failed (HRESULT=0x").concat(
                    hex_fixed_text(bits, 8).as_str(),
                ).concat(")")
            },
            ShortcutError::Io(e) => {
                "cannot resolve the executable path: ".to_owned().concat(e.as_str())
            },
            ShortcutError::UnsupportedPlatform => {
                "shortcut creation requires Windows".to_owned()
            },
        }
    }
}

// ---------- wide strings ----------

/// NUL-terminated UTF-16 of a text, refused when the text holds a NUL.
fn to_wide(s: &str) -> (r: Result<Vec<u16>, ShortcutError>)
    ensures
        match r {
            Ok(u) => !s@.contains('\0') && u@ == wide(s@),
            Err(ShortcutError::InvalidInput(m)) => {
                &&& s@.contains('\0')
                &&& m@ == "string contains an interior NUL byte: "@ + debug_text(s@)
            },
            Err(_) => false,
        },
{
    if has_char(s, '\0') {
        return Err(
            ShortcutError::InvalidInput(
                "string contains an interior NUL byte: ".to_owned().concat(
                    debug_string(s).as_str(),
                ),
            ),
        );
    }
    Ok(encode_wide(s))
}

// ---------- file names ----------

/// Caps the base name so a long profile name cannot push the full path past
/// MAX_PATH (~260 UTF-16 code units); the GUID fallback always fits. Windows
/// measures file names in UTF-16 code units, so the budget is counted in
/// them: a supplementary-plane character takes two.
pub const MAX_NAME_CHARS: usize = 100;

/// A character that no Windows file name can hold.
pub open spec fn is_illegal(c: char) -> bool {
    ||| c == '<'
    ||| c == '>'
    ||| c == ':'
    ||| c == '"'
    ||| c == '/'
    ||| c == '\\'
    ||| c == '|'
    ||| c == '?'
    ||| c == '*'
    ||| c < '\u{20}'
}

/// The text with `_` in the place of each illegal character.
pub open spec fn sanitized(s: Seq<char>) -> Seq<char> {
    Seq::new(
        s.len(),
        |i: int|
            if is_illegal(s[i]) {
                '_'
            } else {
                s[i]
            },
    )
}

/// The longest prefix that takes at most `limit` UTF-16 units.
pub open spec fn capped(s: Seq<char>, limit: nat) -> Seq<char>
    decreases s.len(),
{
    if s.len() == 0 || utf16(s).len() <= limit {
        s
    } else {
        capped(s.drop_last(), limit)
    }
}

/// Without trailing dots and spaces, which Windows drops from a name.
pub open spec fn without_dots(s: Seq<char>) -> Seq<char> {
    trim_end(s, |c: char| c == '.' || c == ' ')
}

/// What a profile's name contributes to the name of its shortcut.
pub open spec fn name_stem(name: Seq<char>) -> Seq<char> {
    without_dots(sanitized(capped(name, MAX_NAME_CHARS as nat)))
}

/// The hexadecimal digits in a text, in order.
pub open spec fn hex_digits(s: Seq<char>) -> Seq<char>
    decreases s.len(),
{
    if s.len() == 0 {
        Seq::empty()
    } else if is_hex(s.last()) {
        hex_digits(s.drop_last()).push(s.last())
    } else {
        hex_digits(s.drop_last())
    }
}

/// The text before the first dot, or all of it.
pub open spec fn before_dot(s: Seq<char>) -> Seq<char>
    decreases s.len(),
{
    if s.len() == 0 || s[0] == '.' {
        Seq::empty()
    } else {
        seq![s[0]] + before_dot(s.drop_first())
    }
}

/// A name that Windows reserves for a device, in upper case.
pub open spec fn is_device(s: Seq<char>) -> bool {
    ||| s == "CON"@
    ||| s == "PRN"@
    ||| s == "AUX"@
    ||| s == "NUL"@
    ||| s == "COM1"@
    ||| s == "COM2"@
    ||| s == "COM3"@
    ||| s == "COM4"@
    ||| s == "COM5"@
    ||| s == "COM6"@
    ||| s == "COM7"@
    ||| s == "COM8"@
    ||| s == "COM9"@
    ||| s == "LPT1"@
    ||| s == "LPT2"@
    ||| s == "LPT3"@
    ||| s == "LPT4"@
    ||| s == "LPT5"@
    ||| s == "LPT6"@
    ||| s == "LPT7"@
    ||| s == "LPT8"@
    ||| s == "LPT9"@
}

/// Whether Windows takes a file name for a device: by what precedes the
/// first dot, without trailing dots and spaces, in either case.
pub open spec fn is_reserved(name: Seq<char>) -> bool {
    is_device(upper(without_dots(before_dot(name))))
}

/// Whether a profile's name gives its shortcut a usable stem.
pub open spec fn has_stem(name: Seq<char>) -> bool {
    name_stem(name).len() > 0 && !is_reserved(name_stem(name))
}

/// The first eight hexadecimal digits of an id (or all, when fewer), in
/// lower case.
pub open spec fn id_tag(id: Seq<char>) -> Seq<char> {
    lower(
        hex_digits(id).take(
            if hex_digits(id).len() < 8 {
                hex_digits(id).len() as int
            } else {
                8
            },
        ),
    )
}

/// The file name of a profile's shortcut.
pub open spec fn file_name_of(name: Seq<char>, id: Seq<char>) -> Seq<char> {
    let digits = hex_digits(id);
    if !has_stem(name) {
        if digits.len() == 0 {
            id + ".lnk"@
        } else {
            digits + ".lnk"@
        }
    } else if digits.len() == 0 {
        name_stem(name) + ".lnk"@
    } else {
        name_stem(name) + "-"@ + id_tag(id) + ".lnk"@
    }
}

proof fn utf16_step(s: Seq<char>, i: int)
    requires
        0 <= i < s.len(),
    ensures
        utf16(s.take(i + 1)).len() == utf16(s.take(i)).len() + utf16_char(s[i]).len(),
{
    assert(s.take(i + 1) =~= s.take(i) + seq![s[i]]);
    utf16_concat(s.take(i), seq![s[i]]);
    assert(seq![s[i]].drop_first() =~= Seq::<char>::empty());
    assert(utf16(Seq::<char>::empty()).len() == 0);
    assert(utf16(seq![s[i]]) =~= utf16_char(s[i]));
}

/// The cap cuts where one more character would go past the limit.
pub(crate) proof fn capped_at(s: Seq<char>, limit: nat, end: int)
    requires
        0 <= end <= s.len(),
        utf16(s.take(end)).len() <= limit,
        end < s.len() ==> utf16(s.take(end + 1)).len() > limit,
    ensures
        capped(s, limit) == s.take(end),
    decreases s.len(),
{
    if end == s.len() {
        assert(s.take(end) =~= s);
    } else {
        let m = s.len() as int;
        utf16_grows(s, end + 1, m);
        assert(s.take(m) =~= s);
        let t = s.drop_last();
        assert(t.take(end) =~= s.take(end));
        if end < t.len() {
            assert(t.take(end + 1) =~= s.take(end + 1));
        }
        capped_at(t, limit, end);
    }
}

pub(crate) proof fn utf16_grows(s: Seq<char>, i: int, j: int)
    requires
        0 <= i <= j <= s.len(),
    ensures
        utf16(s.take(i)).len() <= utf16(s.take(j)).len(),
    decreases j - i,
{
    if i < j {
        utf16_step(s, j - 1);
        utf16_grows(s, i, j - 1);
    }
}

/// The prefix of the characters that fits the budget of UTF-16 units.
fn cap_name(v: &Vec<char>) -> (r: Vec<char>)
    ensures
        r@ == capped(v@, MAX_NAME_CHARS as nat),
{
    let mut units: usize = 0;
    let mut end: usize = 0;
    assert(utf16(v@.take(0)).len() == 0);
    while end < v.len()
        invariant
            end <= v@.len(),
            units == utf16(v@.take(end as int)).len(),
            units <= MAX_NAME_CHARS,
        decreases v@.len() - end,
    {
        let w: usize = if (v[end] as u32) < 0x10000 {
            1
        } else {
            2
        };
        proof {
            char_is_scalar(v@[end as int]);
            utf16_step(v@, end as int);
        }
        if units + w > MAX_NAME_CHARS {
            proof {
                capped_at(v@, MAX_NAME_CHARS as nat, end as int);
            }
            assert(v@.take(end as int) =~= v@.subrange(0, end as int));
            return slice_of(v, 0, end);
        }
        units = units + w;
        end += 1;
    }
    proof {
        capped_at(v@, MAX_NAME_CHARS as nat, end as int);
    }
    assert(v@.take(end as int) =~= v@.subrange(0, end as int));
    slice_of(v, 0, end)
}

fn sanitize(v: &Vec<char>) -> (r: Vec<char>)
    ensures
        r@ == sanitized(v@),
{
    let mut r: Vec<char> = Vec::new();
    let mut i: usize = 0;
    while i < v.len()
        invariant
            i <= v@.len(),
            r@ == sanitized(v@).take(i as int),
        decreases v@.len() - i,
    {
        let c = v[i];
        let illegal: bool = c == '<' || c == '>' || c == ':' || c == '"' || c == '/' || c == '\\'
            || c == '|' || c == '?' || c == '*' || c < '\u{20}';
        r.push(
            if illegal {
                '_'
            } else {
                c
            },
        );
        i += 1;
    }
    r
}

fn keep_hex(v: &Vec<char>) -> (r: Vec<char>)
    ensures
        r@ == hex_digits(v@),
{
    let mut r: Vec<char> = Vec::new();
    let mut i: usize = 0;
    assert(v@.take(0) =~= Seq::<char>::empty());
    while i < v.len()
        invariant
            i <= v@.len(),
            r@ == hex_digits(v@.take(i as int)),
        decreases v@.len() - i,
    {
        assert(v@.take(i + 1).drop_last() =~= v@.take(i as int));
        if hex(v[i]) {
            r.push(v[i]);
        }
        i += 1;
    }
    assert(v@.take(i as int) =~= v@);
    r
}

pub(crate) proof fn before_dot_at(s: Seq<char>, end: int)
    requires
        0 <= end <= s.len(),
        forall|j: int| 0 <= j < end ==> s[j] != '.',
        end < s.len() ==> s[end] == '.',
    ensures
        before_dot(s) == s.take(end),
    decreases end,
{
    if end > 0 {
        before_dot_at(s.drop_first(), end - 1);
        assert(seq![s[0]] + s.drop_first().take(end - 1) =~= s.take(end));
    } else {
        assert(s.take(0) =~= Seq::<char>::empty());
    }
}

/// Windows reserves these device names up to the first dot, so both `CON.lnk`
/// and a `con.foo.lnk` built from a `con.foo` profile name are invalid. The
/// stem is compared after trimming trailing spaces/dots because the OS
/// strips them while normalizing: "con .foo" resolves to reserved "con".
fn is_reserved_name(v: &Vec<char>) -> (r: bool)
    ensures
        r == is_reserved(v@),
{
    let mut end: usize = 0;
    while end < v.len() && v[end] != '.'
        invariant
            end <= v@.len(),
            forall|j: int| 0 <= j < end ==> v@[j] != '.',
        decreases v@.len() - end,
    {
        end += 1;
    }
    proof {
        before_dot_at(v@, end as int);
        assert(v@.take(end as int) =~= v@.subrange(0, end as int));
    }
    let stem = slice_of(v, 0, end);
    let name = string_of(&upper_chars(&trim_dots_spaces(&stem)));
    let u = name.as_str();
    same_text(u, "CON") || same_text(u, "PRN") || same_text(u, "AUX") || same_text(u, "NUL")
        || same_text(u, "COM1") || same_text(u, "COM2") || same_text(u, "COM3") || same_text(
        u,
        "COM4",
    ) || same_text(u, "COM5") || same_text(u, "COM6") || same_text(u, "COM7") || same_text(
        u,
        "COM8",
    ) || same_text(u, "COM9") || same_text(u, "LPT1") || same_text(u, "LPT2") || same_text(
        u,
        "LPT3",
    ) || same_text(u, "LPT4") || same_text(u, "LPT5") || same_text(u, "LPT6") || same_text(
        u,
        "LPT7",
    ) || same_text(u, "LPT8") || same_text(u, "LPT9")
}

/// Builds `<name>-<id tag>.lnk`, mapping characters that are illegal in
/// Windows file names to `_`. The tag is the first eight hex digits of the
/// profile id: sanitizing maps distinct names like "a:b" and "a|b" to the
/// same stem, so without it a later shortcut would silently overwrite the
/// .lnk of a different profile. When the stem is unusable (empty, dots/spaces
/// only, or a reserved device name) the bare GUID digits take over as the
/// whole base name, which is always legal and unique.
pub fn shortcut_file_name(profile_name: &str, fallback_id: &str) -> (r: String)
    ensures
        r@ == file_name_of(profile_name@, fallback_id@),
{
    // Trailing dots/spaces cannot be created; they are trimmed after the
    // length cap because truncation can expose one mid-name.
    let trimmed = trim_dots_spaces(&sanitize(&cap_name(&chars_of(profile_name))));
    // Hex digits of the id (braces/hyphens dropped) are always a legal file
    // name; a validated profile GUID yields the full 32 of them.
    let id_hex = keep_hex(&chars_of(fallback_id));
    if trimmed.len() == 0 || is_reserved_name(&trimmed) {
        if id_hex.len() == 0 {
            return fallback_id.to_owned().concat(".lnk");
        }
        return string_of(&id_hex).concat(".lnk");
    }
    if id_hex.len() == 0 {
        return string_of(&trimmed).concat(".lnk");
    }
    // The stem was capped and trimmed above; the tag is appended after that
    // and is never truncated itself.
    let n: usize = if id_hex.len() < 8 {
        id_hex.len()
    } else {
        8
    };
    assert(id_hex@.take(n as int) =~= id_hex@.subrange(0, n as int));
    let tag = string_of(&lower_chars(&slice_of(&id_hex, 0, n)));
    string_of(&trimmed).concat("-").concat(tag.as_str()).concat(".lnk")
}

// ---------- laws of file names ----------

pub(crate) proof fn hex_digits_concat(a: Seq<char>, b: Seq<char>)
    ensures
        hex_digits(a + b) == hex_digits(a) + hex_digits(b),
    decreases b.len(),
{
    if b.len() == 0 {
        assert(a + b =~= a);
        assert(hex_digits(a) + hex_digits(b) =~= hex_digits(a));
    } else {
        hex_digits_concat(a, b.drop_last());
        assert((a + b).drop_last() =~= a + b.drop_last());
        assert((a + b).last() == b.last());
        assert(hex_digits(a + b) =~= hex_digits(a) + hex_digits(b));
    }
}

proof fn hex_digits_of_hex(s: Seq<char>)
    requires
        forall|i: int| 0 <= i < s.len() ==> is_hex(#[trigger] s[i]),
    ensures
        hex_digits(s) == s,
    decreases s.len(),
{
    if s.len() > 0 {
        assert forall|i: int| 0 <= i < s.drop_last().len() implies is_hex(
            #[trigger] s.drop_last()[i],
        ) by {
            assert(s.drop_last()[i] == s[i]);
        }
        hex_digits_of_hex(s.drop_last());
        assert(is_hex(s[s.len() - 1]));
        assert(hex_digits(s) =~= s);
    } else {
        assert(hex_digits(s) =~= s);
    }
}

proof fn hex_digits_of_other(c: char)
    requires
        !is_hex(c),
    ensures
        hex_digits(seq![c]) == Seq::<char>::empty(),
{
    let s = seq![c];
    assert(s.drop_last() =~= Seq::<char>::empty());
    assert(s.last() == c);
    assert(hex_digits(s.drop_last()) =~= Seq::<char>::empty());
}

/// The five runs of digits in a bare GUID.
pub open spec fn guid_runs(s: Seq<char>) -> Seq<char> {
    s.subrange(0, 8) + s.subrange(9, 13) + s.subrange(14, 18) + s.subrange(19, 23) + s.subrange(
        24,
        36,
    )
}

proof fn guid_run(s: Seq<char>, from: int, to: int)
    requires
        is_bare_guid(s),
        0 <= from <= to <= 36,
        forall|i: int| from <= i < to ==> !is_guid_hyphen(i),
    ensures
        hex_digits(s.subrange(from, to)) == s.subrange(from, to),
{
    let t = s.subrange(from, to);
    assert forall|i: int| 0 <= i < t.len() implies is_hex(#[trigger] t[i]) by {
        assert(t[i] == s[from + i]);
    }
    hex_digits_of_hex(t);
}

proof fn bare_guid_digits(s: Seq<char>)
    requires
        is_bare_guid(s),
    ensures
        hex_digits(s) == guid_runs(s),
        hex_digits(s).len() == 32,
{
    let a = s.subrange(0, 8);
    let b = s.subrange(9, 13);
    let c = s.subrange(14, 18);
    let d = s.subrange(19, 23);
    let e = s.subrange(24, 36);
    let h = seq!['-'];
    assert(s[8] == '-' && s[13] == '-' && s[18] == '-' && s[23] == '-');
    assert(s =~= a + h + b + h + c + h + d + h + e);
    guid_run(s, 0, 8);
    guid_run(s, 9, 13);
    guid_run(s, 14, 18);
    guid_run(s, 19, 23);
    guid_run(s, 24, 36);
    hex_digits_of_other('-');
    hex_digits_concat(a + h + b + h + c + h + d + h, e);
    hex_digits_concat(a + h + b + h + c + h + d, h);
    hex_digits_concat(a + h + b + h + c + h, d);
    hex_digits_concat(a + h + b + h + c, h);
    hex_digits_concat(a + h + b + h, c);
    hex_digits_concat(a + h + b, h);
    hex_digits_concat(a + h, b);
    hex_digits_concat(a, h);
    assert(hex_digits(s) =~= guid_runs(s));
}

/// Braces hold no digits: an id and its bare form have the same ones.
pub(crate) proof fn guid_digits(id: Seq<char>)
    requires
        is_guid(id),
    ensures
        hex_digits(id) == guid_runs(unbraced(id)),
        hex_digits(id).len() == 32,
{
    bare_guid_digits(unbraced(id));
    if unbraced(id) != id {
        let bare = unbraced(id);
        assert(id =~= seq!['{'] + bare + seq!['}']);
        hex_digits_concat(seq!['{'] + bare, seq!['}']);
        hex_digits_concat(seq!['{'], bare);
        hex_digits_of_other('{');
        hex_digits_of_other('}');
        assert(hex_digits(id) =~= hex_digits(bare));
    }
}

pub(crate) proof fn hex_digits_are_hex(s: Seq<char>)
    ensures
        forall|i: int| 0 <= i < hex_digits(s).len() ==> is_hex(#[trigger] hex_digits(s)[i]),
    decreases s.len(),
{
    if s.len() > 0 {
        hex_digits_are_hex(s.drop_last());
        let before = hex_digits(s.drop_last());
        assert forall|i: int| 0 <= i < hex_digits(s).len() implies is_hex(
            #[trigger] hex_digits(s)[i],
        ) by {
            if i < before.len() {
                assert(hex_digits(s)[i] == before[i]);
            }
        }
    }
}

/// The same digits in either case are the same key.
proof fn digits_determine_key(a: Seq<char>, b: Seq<char>)
    requires
        is_guid(a),
        is_guid(b),
        lower(hex_digits(a)) == lower(hex_digits(b)),
    ensures
        guid_key_of(a) == guid_key_of(b),
{
    guid_digits(a);
    guid_digits(b);
    let x = unbraced(a);
    let y = unbraced(b);
    assert forall|i: int| 0 <= i < 36 implies to_upper(x[i]) == to_upper(y[i]) by {
        if is_guid_hyphen(i) {
            assert(x[i] == '-' && y[i] == '-');
        } else {
            let k = if i < 8 {
                i
            } else if i < 13 {
                i - 1
            } else if i < 18 {
                i - 2
            } else if i < 23 {
                i - 3
            } else {
                i - 4
            };
            assert(guid_runs(x)[k] == x[i]);
            assert(guid_runs(y)[k] == y[i]);
            assert(lower(hex_digits(a))[k] == to_lower(x[i]));
            assert(lower(hex_digits(b))[k] == to_lower(y[i]));
        }
    }
    assert(upper(x) =~= upper(y));
}

proof fn same_key_same_digits(a: Seq<char>, b: Seq<char>)
    requires
        is_guid(a),
        is_guid(b),
        guid_key_of(a) == guid_key_of(b),
    ensures
        lower(hex_digits(a)) == lower(hex_digits(b)),
{
    guid_digits(a);
    guid_digits(b);
    let x = unbraced(a);
    let y = unbraced(b);
    assert forall|i: int| 0 <= i < 36 implies to_lower(x[i]) == to_lower(y[i]) by {
        assert(upper(x)[i] == to_upper(x[i]));
        assert(upper(y)[i] == to_upper(y[i]));
    }
    assert forall|k: int| 0 <= k < 32 implies to_lower(guid_runs(x)[k]) == to_lower(
        guid_runs(y)[k],
    ) by {
        let i = if k < 8 {
            k
        } else if k < 12 {
            k + 1
        } else if k < 16 {
            k + 2
        } else if k < 20 {
            k + 3
        } else {
            k + 4
        };
        assert(guid_runs(x)[k] == x[i]);
        assert(guid_runs(y)[k] == y[i]);
    }
    assert(lower(hex_digits(a)) =~= lower(hex_digits(b)));
}

/// Two ids that name the same profile, in whatever case and with or without
/// braces, give shortcuts of the same name. Windows tells file names apart
/// without regard to case, and so does this law.
pub proof fn same_profile_same_file(name: Seq<char>, a: Seq<char>, b: Seq<char>)
    requires
        is_guid(a),
        is_guid(b),
        guid_key_of(a) == guid_key_of(b),
    ensures
        lower(file_name_of(name, a)) == lower(file_name_of(name, b)),
{
    guid_digits(a);
    guid_digits(b);
    same_key_same_digits(a, b);
    let x = hex_digits(a);
    let y = hex_digits(b);
    assert forall|i: int| 0 <= i < 32 implies to_lower(x[i]) == to_lower(y[i]) by {
        assert(lower(x)[i] == to_lower(x[i]));
        assert(lower(y)[i] == to_lower(y[i]));
    }
    if has_stem(name) {
        assert(id_tag(a) =~= id_tag(b));
    } else {
        assert(lower(x + ".lnk"@) =~= lower(y + ".lnk"@));
    }
}

/// Shortcuts of different profiles never share a file, whatever the profiles
/// are called, except where both names leave the same usable stem and the
/// ids agree in their first eight digits.
pub proof fn different_profiles_different_files(
    name_a: Seq<char>,
    a: Seq<char>,
    name_b: Seq<char>,
    b: Seq<char>,
)
    requires
        is_guid(a),
        is_guid(b),
        guid_key_of(a) != guid_key_of(b),
        lower(file_name_of(name_a, a)) == lower(file_name_of(name_b, b)),
    ensures
        has_stem(name_a) && has_stem(name_b),
        lower(name_stem(name_a)) == lower(name_stem(name_b)),
        id_tag(a) == id_tag(b),
{
    reveal_strlit("-");
    reveal_strlit(".lnk");
    guid_digits(a);
    guid_digits(b);
    hex_digits_are_hex(a);
    hex_digits_are_hex(b);
    let f = file_name_of(name_a, a);
    let g = file_name_of(name_b, b);
    let n = f.len() as int;
    assert(lower(f).len() == n && lower(g).len() == n);
    assert(g.len() == n);
    assert forall|i: int| 0 <= i < n implies to_lower(f[i]) == to_lower(g[i]) by {
        assert(lower(f)[i] == to_lower(f[i]));
        assert(lower(g)[i] == to_lower(g[i]));
    }
    let x = hex_digits(a);
    let y = hex_digits(b);
    if !has_stem(name_a) && !has_stem(name_b) {
        assert forall|i: int| 0 <= i < 32 implies to_lower(x[i]) == to_lower(y[i]) by {
            assert(f[i] == x[i]);
            assert(g[i] == y[i]);
        }
        assert(lower(x) =~= lower(y));
        digits_determine_key(a, b);
    } else if !has_stem(name_a) {
        assert(n == 36);
        assert(g[23] == '-');
        assert(f[23] == x[23]);
        assert(is_hex(x[23]));
    } else if !has_stem(name_b) {
        assert(n == 36);
        assert(f[23] == '-');
        assert(g[23] == y[23]);
        assert(is_hex(y[23]));
    } else {
        let s = name_stem(name_a);
        let t = name_stem(name_b);
        assert(s.len() == n - 13 && t.len() == n - 13);
        assert forall|i: int| 0 <= i < s.len() implies to_lower(s[i]) == to_lower(t[i]) by {
            assert(f[i] == s[i]);
            assert(g[i] == t[i]);
        }
        assert(lower(s) =~= lower(t));
        assert forall|i: int| 0 <= i < 8 implies id_tag(a)[i] == id_tag(b)[i] by {
            assert(f[n - 12 + i] == id_tag(a)[i]);
            assert(g[n - 12 + i] == id_tag(b)[i]);
            assert(id_tag(a)[i] == to_lower(x[i]));
            assert(id_tag(b)[i] == to_lower(y[i]));
        }
        assert(id_tag(a) =~= id_tag(b));
    }
}

pub(crate) proof fn capped_fits(s: Seq<char>, limit: nat)
    ensures
        utf16(capped(s, limit)).len() <= limit,
    decreases s.len(),
{
    if s.len() == 0 || utf16(s).len() <= limit {
    } else {
        capped_fits(s.drop_last(), limit);
    }
}

proof fn units_of_sanitized(s: Seq<char>)
    ensures
        utf16(sanitized(s)).len() <= utf16(s).len(),
    decreases s.len(),
{
    if s.len() > 0 {
        units_of_sanitized(s.drop_first());
        assert(sanitized(s).drop_first() =~= sanitized(s.drop_first()));
        char_is_scalar(s[0]);
    }
}

/// What is left of a name as a stem: no illegal character, no dot or space
/// at the end, at most `MAX_NAME_CHARS` units.
proof fn stem_is_clean(name: Seq<char>)
    ensures
        utf16(name_stem(name)).len() <= MAX_NAME_CHARS,
        forall|i: int| 0 <= i < name_stem(name).len() ==> !is_illegal(#[trigger] name_stem(name)[i]),
        name_stem(name).len() > 0 ==> name_stem(name).last() != '.' && name_stem(name).last() != ' ',
{
    let p = |c: char| c == '.' || c == ' ';
    let c = capped(name, MAX_NAME_CHARS as nat);
    let s = sanitized(c);
    let t = name_stem(name);
    capped_fits(name, MAX_NAME_CHARS as nat);
    units_of_sanitized(c);
    trim_end_cuts(s, p);
    utf16_grows(s, t.len() as int, s.len() as int);
    assert(s.take(s.len() as int) =~= s);
    assert forall|i: int| 0 <= i < t.len() implies !is_illegal(#[trigger] t[i]) by {
        assert(t[i] == s[i]);
    }
    if t.len() > 0 {
        assert(!p(t.last()));
    }
}

pub(crate) proof fn before_dot_cuts(s: Seq<char>)
    ensures
        before_dot(s).len() <= s.len(),
        before_dot(s) == s.take(before_dot(s).len() as int),
        before_dot(s).len() < s.len() ==> s[before_dot(s).len() as int] == '.',
        forall|i: int| 0 <= i < before_dot(s).len() ==> #[trigger] s[i] != '.',
    decreases s.len(),
{
    if s.len() == 0 || s[0] == '.' {
        assert(before_dot(s) =~= s.take(0));
    } else {
        let r = s.drop_first();
        before_dot_cuts(r);
        let k = before_dot(r).len() as int;
        assert(seq![s[0]] + r.take(k) =~= s.take(k + 1));
        if k + 1 < s.len() {
            assert(r[k] == s[k + 1]);
        }
        assert forall|i: int| 0 <= i < k + 1 implies #[trigger] s[i] != '.' by {
            if i > 0 {
                assert(r[i - 1] == s[i]);
            }
        }
    }
}

proof fn long_is_no_device(s: Seq<char>)
    requires
        s.len() > 4,
    ensures
        !is_device(s),
{
    reveal_strlit("CON");
    reveal_strlit("PRN");
    reveal_strlit("AUX");
    reveal_strlit("NUL");
    reveal_strlit("COM1");
    reveal_strlit("COM2");
    reveal_strlit("COM3");
    reveal_strlit("COM4");
    reveal_strlit("COM5");
    reveal_strlit("COM6");
    reveal_strlit("COM7");
    reveal_strlit("COM8");
    reveal_strlit("COM9");
    reveal_strlit("LPT1");
    reveal_strlit("LPT2");
    reveal_strlit("LPT3");
    reveal_strlit("LPT4");
    reveal_strlit("LPT5");
    reveal_strlit("LPT6");
    reveal_strlit("LPT7");
    reveal_strlit("LPT8");
    reveal_strlit("LPT9");
}

/// A name whose first dot stands behind more than four characters that do
/// not end in a dot or a space is no device.
proof fn long_stem_is_no_device(f: Seq<char>, k: int)
    requires
        4 < k < f.len(),
        f[k] == '.',
        forall|i: int| 0 <= i < k ==> #[trigger] f[i] != '.',
        f[k - 1] != ' ',
    ensures
        !is_reserved(f),
{
    let p = |c: char| c == '.' || c == ' ';
    before_dot_at(f, k);
    let s = f.take(k);
    assert(s.last() == f[k - 1]);
    assert(!p(s.last()));
    assert(without_dots(s) == s);
    long_is_no_device(upper(s));
}

/// Whatever a profile is called, its shortcut has a name that Windows
/// accepts: it ends in `.lnk`, holds no illegal character, is not taken for
/// a device, and is at most `MAX_NAME_CHARS` and thirteen units long.
pub proof fn file_name_is_legal(name: Seq<char>, id: Seq<char>)
    requires
        is_guid(id),
    ensures
        ({
            let f = file_name_of(name, id);
            &&& f.len() > 4
            &&& f.skip(f.len() - 4) == ".lnk"@
            &&& forall|i: int| 0 <= i < f.len() ==> !is_illegal(#[trigger] f[i])
            &&& !is_reserved(f)
            &&& utf16(f).len() <= MAX_NAME_CHARS + 13
        }),
{
    reveal_strlit("-");
    reveal_strlit(".lnk");
    guid_digits(id);
    hex_digits_are_hex(id);
    let f = file_name_of(name, id);
    let digits = hex_digits(id);
    assert forall|i: int| 0 <= i < 32 implies digits[i] != '.' && digits[i] != ' ' && !is_illegal(
        #[trigger] digits[i],
    ) && digits[i] < '\u{80}' by {
        assert(is_hex(digits[i]));
    }
    if !has_stem(name) {
        assert(f.skip(f.len() - 4) =~= ".lnk"@);
        assert forall|i: int| 0 <= i < f.len() implies !is_illegal(#[trigger] f[i]) && f[i]
            < '\u{80}' by {
            if i < 32 {
                assert(f[i] == digits[i]);
            }
        }
        units_of_ascii(f);
        assert forall|i: int| 0 <= i < 32 implies #[trigger] f[i] != '.' by {
            assert(f[i] == digits[i]);
        }
        assert(f[31] == digits[31]);
        long_stem_is_no_device(f, 32);
    } else {
        let t = name_stem(name);
        let tag = id_tag(id);
        stem_is_clean(name);
        assert(tag.len() == 8);
        assert forall|i: int| 0 <= i < 8 implies !is_illegal(#[trigger] tag[i]) && tag[i] != '.'
            && tag[i] != ' ' && tag[i] < '\u{80}' by {
            assert(tag[i] == to_lower(digits[i]));
            assert(is_hex(digits[i]));
        }
        let tail = "-"@ + tag + ".lnk"@;
        assert(f =~= t + tail);
        assert(tail.len() == 13);
        assert forall|i: int| 0 <= i < 13 implies !is_illegal(#[trigger] tail[i]) && tail[i]
            < '\u{80}' by {
            if 1 <= i < 9 {
                assert(tail[i] == tag[i - 1]);
            }
        }
        units_of_ascii(tail);
        utf16_concat(t, tail);
        assert(f.skip(f.len() - 4) =~= ".lnk"@);
        assert forall|i: int| 0 <= i < f.len() implies !is_illegal(#[trigger] f[i]) by {
            if i < t.len() {
                assert(f[i] == t[i]);
            } else {
                assert(f[i] == tail[i - t.len()]);
            }
        }
        before_dot_cuts(t);
        let k = before_dot(t).len() as int;
        if k < t.len() {
            assert forall|i: int| 0 <= i < k implies f[i] != '.' by {
                assert(f[i] == t[i]);
            }
            assert(f[k] == t[k]);
            before_dot_at(f, k);
            assert(f.take(k) =~= t.take(k));
        } else {
            let m: int = t.len() + 9int;
            assert forall|i: int| 0 <= i < m implies #[trigger] f[i] != '.' by {
                if i < t.len() {
                    assert(f[i] == t[i]);
                } else if i > t.len() {
                    assert(f[i] == tag[i - t.len() - 1]);
                }
            }
            assert(f[m - 1] == tag[7]);
            assert(f[m] == '.');
            long_stem_is_no_device(f, m);
        }
    }
}

// ---------- the link ----------

/// The running executable: its path and the directory it lies in, in UTF-16
/// units without a terminating NUL.
pub struct Executable {
    pub path: Vec<u16>,
    pub directory: Option<Vec<u16>>,
}

/// What a shortcut is written with. The wide fields end in NUL.
pub struct Link {
    /// The known folder that receives the file.
    pub folder: String,
    pub file_name: String,
    pub target: Vec<u16>,
    pub arguments: Vec<u16>,
    pub work_dir: Vec<u16>,
    pub icon: Vec<u16>,
}

/// The command-line arguments of a profile's shortcut.
pub open spec fn link_arguments(id: Seq<char>) -> Seq<char> {
    "--profile "@ + id
}

/// The link that opens the profile through the executable.
pub open spec fn links(link: Link, name: Seq<char>, id: Seq<char>, exe: Executable) -> bool {
    &&& link.file_name@ == file_name_of(name, id)
    &&& link.target@ == exe.path@.push(0)
    &&& link.icon@ == link.target@
    &&& link.arguments@ == wide(link_arguments(id))
    &&& exe.directory matches Some(dir) && link.work_dir@ == dir@.push(0)
}

fn terminated(units: &Vec<u16>) -> (r: Vec<u16>)
    ensures
        r@ == units@.push(0),
{
    let mut r: Vec<u16> = Vec::new();
    let mut i: usize = 0;
    while i < units.len()
        invariant
            i <= units@.len(),
            r@ == units@.take(i as int),
        decreases units@.len() - i,
    {
        r.push(units[i]);
        i += 1;
    }
    r.push(0);
    r
}

/// Decides what `<folder>\<profile name>-<id tag>.lnk` holds: this
/// executable with `--profile <id>` arguments. An existing file is
/// overwritten so re-running after a rename or exe move repairs the link.
///
/// `exe` is the running executable, or why it could not be resolved, and
/// `folder` the known folder of the location, or why it could not be.
pub fn create(
    profile_name: &str,
    profile_id: &str,
    exe: Result<Executable, String>,
    folder: Result<String, ShortcutError>,
) -> (r: Result<Link, ShortcutError>)
    ensures
        match (exe, folder) {
            (Err(e), _) => r == Err::<Link, ShortcutError>(ShortcutError::Io(e)),
            (Ok(x), _) if x.directory is None => {
                r matches Err(ShortcutError::InvalidInput(m)) && m@
                    == "executable has no parent directory"@
            },
            (Ok(_), Err(e)) => r == Err::<Link, ShortcutError>(e),
            (Ok(x), Ok(dir)) => match r {
                Ok(link) => {
                    &&& !profile_id@.contains('\0')
                    &&& link.folder == dir
                    &&& links(link, profile_name@, profile_id@, x)
                },
                Err(ShortcutError::InvalidInput(m)) => {
                    &&& profile_id@.contains('\0')
                    &&& m@ == "string contains an interior NUL byte: "@ + debug_text(
                        link_arguments(profile_id@),
                    )
                },
                Err(_) => false,
            },
        },
{
    let exe = match exe {
        Ok(exe) => exe,
        Err(e) => return Err(ShortcutError::Io(e)),
    };
    let work_dir = match &exe.directory {
        Some(dir) => terminated(dir),
        None => {
            return Err(
                ShortcutError::InvalidInput("executable has no parent directory".to_owned()),
            );
        },
    };
    let folder = match folder {
        Ok(folder) => folder,
        Err(e) => return Err(e),
    };
    let arguments = "--profile ".to_owned().concat(profile_id);
    proof {
        reveal_strlit("--profile ");
        let a = arguments@;
        assert(a == "--profile "@ + profile_id@);
        if profile_id@.contains('\0') {
            let i = choose|i: int| 0 <= i < profile_id@.len() && profile_id@[i] == '\0';
            assert(a[10 + i] == '\0');
        }
        if a.contains('\0') {
            let i = choose|i: int| 0 <= i < a.len() && a[i] == '\0';
            assert(i >= 10);
            assert(profile_id@[i - 10] == '\0');
        }
    }
    let arguments = match to_wide(arguments.as_str()) {
        Ok(arguments) => arguments,
        Err(e) => return Err(e),
    };
    Ok(
        Link {
            folder,
            file_name: shortcut_file_name(profile_name, profile_id),
            target: terminated(&exe.path),
            arguments,
            work_dir,
            icon: terminated(&exe.path),
        },
    )
}

// ---------- answers of the shell ----------

/// Whether a call's answer is a success, and the error it is otherwise.
pub open spec fn is_answer(r: Result<(), ShortcutError>, api: Seq<char>, hr: i32) -> bool {
    match r {
        Ok(()) => hr >= 0,
        Err(ShortcutError::Com { api: a, hr: h }) => hr < 0 && a@ == api && h == hr,
        Err(_) => false,
    }
}

fn hr_err(api: &'static str, hr: i32) -> (r: ShortcutError)
    ensures
        r == (ShortcutError::Com { api, hr }),
{
    ShortcutError::Com { api, hr }
}

fn answer(api: &'static str, hr: i32) -> (r: Result<(), ShortcutError>)
    ensures
        is_answer(r, api@, hr),
{
    if hr < 0 {
        return Err(hr_err(api, hr));
    }
    Ok(())
}

/// The known folder in what `SHGetKnownFolderPath` answered: `units` is what
/// its out-pointer leads to, up to and past the terminating NUL.
pub fn known_folder(hr: i32, units: &[u16]) -> (r: Result<String, ShortcutError>)
    ensures
        match r {
            Ok(dir) => hr >= 0 && dir@ == utf16_text_lossy(until_nul(units@)),
            Err(ShortcutError::Com { api, hr: h }) => {
                hr < 0 && api@ == "SHGetKnownFolderPath"@ && h == hr
            },
            Err(_) => false,
        },
{
    if hr < 0 {
        return Err(hr_err("SHGetKnownFolderPath", hr));
    }
    Ok(decode_until_nul(units))
}

/// Both S_OK and S_FALSE of `CoInitializeEx` mean that the thread is
/// initialized; RPC_E_CHANGED_MODE and real failures are errors.
pub fn initialized(hr: i32) -> (r: Result<(), ShortcutError>)
    ensures
        is_answer(r, "CoInitializeEx"@, hr),
{
    answer("CoInitializeEx", hr)
}

/// The answer of a call that hands out an object: success with a null pointer
/// counts as -1.
pub open spec fn object_answer(hr: i32, null: bool) -> i32 {
    if hr >= 0 && null {
        -1i32
    } else {
        hr
    }
}

/// Whether an object was handed out. A compliant server never answers
/// success with a null pointer, but dereferencing one would be undefined, so
/// it counts as a failure too.
fn handed_out(api: &'static str, hr: i32, null: bool) -> (r: Result<(), ShortcutError>)
    ensures
        is_answer(
            r,
            api@,
            object_answer(hr, null),
        ),
{
    if hr < 0 {
        return Err(hr_err(api, hr));
    }
    if null {
        return Err(hr_err(api, -1));
    }
    Ok(())
}

/// What `CoCreateInstance` gave for the shell link object.
pub fn created(hr: i32, null: bool) -> (r: Result<(), ShortcutError>)
    ensures
        is_answer(
            r,
            "CoCreateInstance(ShellLink)"@,
            object_answer(hr, null),
        ),
{
    handed_out("CoCreateInstance(ShellLink)", hr, null)
}

/// What the four setters of the link answered: the first failure counts.
pub fn fields_set(path: i32, arguments: i32, work_dir: i32, icon: i32) -> (r: Result<
    (),
    ShortcutError,
>)
    ensures
        if path < 0 {
            is_answer(r, "IShellLinkW::SetPath"@, path)
        } else if arguments < 0 {
            is_answer(r, "IShellLinkW::SetArguments"@, arguments)
        } else if work_dir < 0 {
            is_answer(r, "IShellLinkW::SetWorkingDirectory"@, work_dir)
        } else {
            is_answer(r, "IShellLinkW::SetIconLocation"@, icon)
        },
{
    if path < 0 {
        return answer("IShellLinkW::SetPath", path);
    }
    if arguments < 0 {
        return answer("IShellLinkW::SetArguments", arguments);
    }
    if work_dir < 0 {
        return answer("IShellLinkW::SetWorkingDirectory", work_dir);
    }
    answer("IShellLinkW::SetIconLocation", icon)
}

/// What asking the link for its file interface gave.
pub fn queried(hr: i32, null: bool) -> (r: Result<(), ShortcutError>)
    ensures
        is_answer(
            r,
            "IShellLinkW::QueryInterface(IPersistFile)"@,
            object_answer(hr, null),
        ),
{
    handed_out("IShellLinkW::QueryInterface(IPersistFile)", hr, null)
}

/// What saving the link answered.
pub fn saved(hr: i32) -> (r: Result<(), ShortcutError>)
    ensures
        is_answer(r, "IPersistFile::Save"@, hr),
{
    answer("IPersistFile::Save", hr)
}

} // verus!
