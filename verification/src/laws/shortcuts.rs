//! The names and arguments of shortcuts.

use crate::shortcut::{
    before_dot_at, capped_at, create, created, fields_set, hex_digits, id_tag, initialized,
    is_device, known_folder, name_stem, queried, sanitized, saved, shortcut_file_name, without_dots,
    Executable, Link, ShortcutError,
};
use crate::text::{is_hex, to_upper, trim_end, trim_end_cuts, upper};
use crate::utf16::{decode_until_nul, utf16};
use vstd::prelude::*;
use vstd::string::*;

verus! {

/// A character that Windows allows in a file name.
pub open spec fn may_stand(c: char) -> bool {
    &&& c as int >= 32
    &&& c != '<' && c != '>' && c != ':' && c != '"' && c != '/'
    &&& c != '\\' && c != '|' && c != '?' && c != '*'
}

/// A letter, in either case.
pub open spec fn is_letter(c: char, lower: char, upper: char) -> bool {
    c == lower || c == upper
}

/// What Windows takes for a device: `CON`, `PRN`, `AUX`, `NUL`, and `COM` and
/// `LPT` with a digit from one to nine, in either case.
pub open spec fn names_a_device(s: Seq<char>) -> bool {
    ||| {
        &&& s.len() == 3
        &&& {
            ||| is_letter(s[0], 'c', 'C') && is_letter(s[1], 'o', 'O') && is_letter(s[2], 'n', 'N')
            ||| is_letter(s[0], 'p', 'P') && is_letter(s[1], 'r', 'R') && is_letter(s[2], 'n', 'N')
            ||| is_letter(s[0], 'a', 'A') && is_letter(s[1], 'u', 'U') && is_letter(s[2], 'x', 'X')
            ||| is_letter(s[0], 'n', 'N') && is_letter(s[1], 'u', 'U') && is_letter(s[2], 'l', 'L')
        }
    }
    ||| {
        &&& s.len() == 4
        &&& '1' <= s[3] <= '9'
        &&& {
            ||| is_letter(s[0], 'c', 'C') && is_letter(s[1], 'o', 'O') && is_letter(s[2], 'm', 'M')
            ||| is_letter(s[0], 'l', 'L') && is_letter(s[1], 'p', 'P') && is_letter(s[2], 't', 'T')
        }
    }
}

proof fn upper_of(c: char)
    ensures
        to_upper(c) as int == if 'a' <= c <= 'z' {
            c as int - 32
        } else {
            c as int
        },
{
}

proof fn devices(s: Seq<char>)
    ensures
        is_device(upper(s)) <==> names_a_device(s),
{
    reveal_strlit("CON");
    reveal_strlit("PRN");
    reveal_strlit("AUX");
    reveal_strlit("NUL");
    reveal_strlit("COM1");
    reveal_strlit("COM2");
    reveal_strlit("COM3");
    reveal_strlit("COM4");
    reveal_strlit("COM5");
    reveal_strlit("COM6");
    reveal_strlit("COM7");
    reveal_strlit("COM8");
    reveal_strlit("COM9");
    reveal_strlit("LPT1");
    reveal_strlit("LPT2");
    reveal_strlit("LPT3");
    reveal_strlit("LPT4");
    reveal_strlit("LPT5");
    reveal_strlit("LPT6");
    reveal_strlit("LPT7");
    reveal_strlit("LPT8");
    reveal_strlit("LPT9");
    let u = upper(s);
    if is_device(u) {
        assert(u.len() == s.len());
        assert(u[0] == to_upper(s[0]) && u[1] == to_upper(s[1]) && u[2] == to_upper(s[2]));
        upper_of(s[0]);
        upper_of(s[1]);
        upper_of(s[2]);
        if s.len() == 4 {
            assert(u[3] == to_upper(s[3]));
            upper_of(s[3]);
            assert('1' <= s[3] <= '9');
        }
    }
    if names_a_device(s) {
        if s.len() == 3 {
            assert(u =~= seq![u[0], u[1], u[2]]);
            assert(u =~= "CON"@ || u =~= "PRN"@ || u =~= "AUX"@ || u =~= "NUL"@);
        } else {
            assert(u =~= seq![u[0], u[1], u[2], u[3]]);
            assert(u =~= "COM1"@ || u =~= "COM2"@ || u =~= "COM3"@ || u =~= "COM4"@ || u =~= "COM5"@
                || u =~= "COM6"@ || u =~= "COM7"@ || u =~= "COM8"@ || u =~= "COM9"@ || u
                =~= "LPT1"@ || u =~= "LPT2"@ || u =~= "LPT3"@ || u =~= "LPT4"@ || u =~= "LPT5"@
                || u =~= "LPT6"@ || u =~= "LPT7"@ || u =~= "LPT8"@ || u =~= "LPT9"@);
        }
    }
}

/// A hexadecimal digit.
pub open spec fn is_hex_digit(c: char) -> bool {
    '0' <= c <= '9' || 'a' <= c <= 'f' || 'A' <= c <= 'F'
}

proof fn digits_are_filtered(s: Seq<char>)
    ensures
        hex_digits(s) == s.filter(|c: char| is_hex_digit(c)),
    decreases s.len(),
{
    reveal(Seq::filter);
    if s.len() > 0 {
        digits_are_filtered(s.drop_last());
        assert(is_hex(s.last()) == is_hex_digit(s.last()));
    }
}

/// What trimming the end of a text leaves.
proof fn trimmed_at(s: Seq<char>, end: int)
    requires
        0 <= end <= s.len(),
        forall|i: int| end <= i < s.len() ==> #[trigger] s[i] == '.' || s[i] == ' ',
        end > 0 ==> s[end - 1] != '.' && s[end - 1] != ' ',
    ensures
        without_dots(s) == s.take(end),
{
    let p = |c: char| c == '.' || c == ' ';
    trim_end_cuts(s, p);
    let t = trim_end(s, p);
    if t.len() < end {
        assert(p(s[end - 1]));
    } else if t.len() > end {
        assert(t.last() == s[t.len() - 1]);
        assert(p(s[t.len() - 1]));
    }
}

/// The name of a profile's shortcut, in full. Of the profile's name the part
/// counts that fits in a hundred UTF-16 units, up to `cut`, without dots and
/// spaces at its end, from `end` on; what may not stand in a file name is an
/// underscore there, and every other character stays what it is. The id adds
/// its first eight hexadecimal digits in lower case. Where nothing is left of
/// the name, or what precedes its first dot, without spaces, is a device, the
/// digits of the id stand for it.
pub proof fn shortcuts_are_named_after_their_profile(
    name: &str,
    id: &str,
    r: String,
    cut: int,
    end: int,
    dot: int,
    base: int,
    stem: Seq<char>,
    digits: Seq<char>,
    tag: Seq<char>,
)
    requires
        call_ensures(shortcut_file_name, (name, id), r),
        0 <= base <= dot <= end <= cut <= name@.len(),
        utf16(name@.take(cut)).len() <= 100,
        cut < name@.len() ==> utf16(name@.take(cut + 1)).len() > 100,
        forall|i: int| end <= i < cut ==> #[trigger] name@[i] == '.' || name@[i] == ' ',
        end > 0 ==> name@[end - 1] != '.' && name@[end - 1] != ' ',
        stem.len() == end,
        forall|i: int|
            0 <= i < end ==> (may_stand(name@[i]) ==> #[trigger] stem[i] == name@[i]) && (
            !may_stand(name@[i]) ==> stem[i] == '_'),
        forall|i: int| 0 <= i < dot ==> #[trigger] stem[i] != '.',
        dot < end ==> stem[dot] == '.',
        forall|i: int| base <= i < dot ==> #[trigger] stem[i] == ' ',
        base > 0 ==> stem[base - 1] != ' ',
        digits == id@.filter(|c: char| is_hex_digit(c)),
        tag.len() == digits.len() || tag.len() == 8,
        tag.len() <= 8,
        tag.len() <= digits.len(),
        forall|i: int|
            0 <= i < tag.len() ==> ('A' <= digits[i] <= 'F' ==> #[trigger] tag[i] as int
                == digits[i] as int + 32) && (!('A' <= digits[i] <= 'F') ==> tag[i] == digits[i]),
    ensures
        end > 0 && !names_a_device(stem.take(base)) ==> r@ == if digits.len() > 0 {
            stem + seq!['-'] + tag + seq!['.', 'l', 'n', 'k']
        } else {
            stem + seq!['.', 'l', 'n', 'k']
        },
        end == 0 || names_a_device(stem.take(base)) ==> r@ == if digits.len() > 0 {
            digits + seq!['.', 'l', 'n', 'k']
        } else {
            id@ + seq!['.', 'l', 'n', 'k']
        },
{
    let n = name@;
    reveal_strlit("-");
    reveal_strlit(".lnk");
    assert("-"@ =~= seq!['-']);
    assert(".lnk"@ =~= seq!['.', 'l', 'n', 'k']);
    digits_are_filtered(id@);
    capped_at(n, 100, cut);
    let c = n.take(cut);
    let s = sanitized(c);
    assert forall|i: int| end <= i < s.len() implies #[trigger] s[i] == '.' || s[i] == ' ' by {
        assert(s[i] == n[i]);
    }
    trimmed_at(s, end);
    assert(name_stem(n) =~= stem) by {
        assert forall|i: int| 0 <= i < end implies s[i] == stem[i] by {
            assert(c[i] == n[i]);
        }
    }
    before_dot_at(stem, dot);
    assert forall|i: int| base <= i < stem.take(dot).len() implies #[trigger] stem.take(dot)[i]
        == '.' || stem.take(dot)[i] == ' ' by {
        assert(stem.take(dot)[i] == stem[i]);
    }
    if base > 0 {
        assert(stem.take(dot)[base - 1] == stem[base - 1]);
    }
    trimmed_at(stem.take(dot), base);
    assert(stem.take(dot).take(base) =~= stem.take(base));
    devices(stem.take(base));
    assert(id_tag(id@) =~= tag) by {
        assert forall|i: int| 0 <= i < tag.len() implies id_tag(id@)[i] == tag[i] by {
            is_digit_of(id@, i);
        }
    }
}

proof fn is_digit_of(s: Seq<char>, i: int)
    requires
        0 <= i < s.filter(|c: char| is_hex_digit(c)).len(),
    ensures
        is_hex_digit(s.filter(|c: char| is_hex_digit(c))[i]),
{
    let p = |c: char| is_hex_digit(c);
    s.lemma_filter_pred(p, i);
}

/// A name that Windows takes as it is stays whole: a name of at most a
/// hundred UTF-16 units without an illegal character, that does not end in a
/// dot or a space and has no device before its first dot. Only a hyphen, the
/// tag of the id and the extension follow it.
pub proof fn a_clean_name_stays_whole(
    name: &str,
    id: &str,
    r: String,
    dot: int,
    base: int,
    tag: Seq<char>,
)
    requires
        call_ensures(shortcut_file_name, (name, id), r),
        0 < name@.len(),
        utf16(name@).len() <= 100,
        forall|i: int| 0 <= i < name@.len() ==> may_stand(#[trigger] name@[i]),
        name@.last() != '.' && name@.last() != ' ',
        0 <= base <= dot <= name@.len(),
        forall|i: int| 0 <= i < dot ==> #[trigger] name@[i] != '.',
        dot < name@.len() ==> name@[dot] == '.',
        forall|i: int| base <= i < dot ==> #[trigger] name@[i] == ' ',
        base > 0 ==> name@[base - 1] != ' ',
        !names_a_device(name@.take(base)),
        id@.filter(|c: char| is_hex_digit(c)).len() >= 8,
        tag.len() == 8,
        forall|i: int|
            0 <= i < 8 ==> {
                let d = id@.filter(|c: char| is_hex_digit(c))[i];
                ('A' <= d <= 'F' ==> #[trigger] tag[i] as int == d as int + 32) && (!('A' <= d
                    <= 'F') ==> tag[i] == d)
            },
    ensures
        r@ == name@ + seq!['-'] + tag + seq!['.', 'l', 'n', 'k'],
{
    assert(name@.take(name@.len() as int) =~= name@);
    shortcuts_are_named_after_their_profile(
        name,
        id,
        r,
        name@.len() as int,
        name@.len() as int,
        dot,
        base,
        name@,
        id@.filter(|c: char| is_hex_digit(c)),
        tag,
    );
}

// ---------- the link ----------

/// A shortcut starts this executable, by its own path and in its own
/// directory, with the id of the profile behind `--profile`. Its name is the
/// one that the profile gives it, and it stands in the folder that was asked
/// for.
pub proof fn links_start_the_profile(
    name: &str,
    id: &str,
    exe: Result<Executable, String>,
    folder: Result<String, ShortcutError>,
    r: Result<Link, ShortcutError>,
    file_name: String,
)
    requires
        call_ensures(create, (name, id, exe, folder), r),
        call_ensures(shortcut_file_name, (name, id), file_name),
    ensures
        r is Ok <==> exe is Ok && exe->Ok_0.directory is Some && folder is Ok && !id@.contains(
            '\0',
        ),
        r matches Ok(link) ==> {
            &&& link.folder == folder->Ok_0
            &&& link.file_name@ == file_name@
            &&& link.target@ == exe->Ok_0.path@ + seq![0u16]
            &&& link.icon@ == exe->Ok_0.path@ + seq![0u16]
            &&& link.work_dir@ == exe->Ok_0.directory->0@ + seq![0u16]
            &&& link.arguments@ == utf16("--profile "@ + id@) + seq![0u16]
        },
        exe matches Err(e) ==> r == Err::<Link, ShortcutError>(ShortcutError::Io(e)),
        exe is Ok && exe->Ok_0.directory is Some && folder is Err ==> r == Err::<
            Link,
            ShortcutError,
        >(folder->Err_0),
{
    if let Ok(link) = r {
        let x = exe->Ok_0;
        assert(x.path@.push(0) =~= x.path@ + seq![0u16]);
        assert(x.directory->0@.push(0) =~= x.directory->0@ + seq![0u16]);
        let a = utf16("--profile "@ + id@);
        assert(a.push(0) =~= a + seq![0u16]);
    }
}

/// Whether an answer counts as an error of the call, with the code.
pub open spec fn fails_with(r: Result<(), ShortcutError>, api: Seq<char>, hr: i32) -> bool {
    r matches Err(ShortcutError::Com { api: a, hr: h }) && a@ == api && h == hr
}

/// A call of the shell succeeded unless its answer is negative; an object
/// that was not handed out counts as a failure too. Of the fields the first
/// failure counts, and each failure names its call.
pub proof fn negative_answers_are_failures(
    hr: i32,
    null: bool,
    a: i32,
    b: i32,
    c: i32,
    d: i32,
    start: Result<(), ShortcutError>,
    object: Result<(), ShortcutError>,
    fields: Result<(), ShortcutError>,
    file: Result<(), ShortcutError>,
    done: Result<(), ShortcutError>,
)
    requires
        call_ensures(initialized, (hr,), start),
        call_ensures(created, (hr, null), object),
        call_ensures(fields_set, (a, b, c, d), fields),
        call_ensures(queried, (hr, null), file),
        call_ensures(saved, (hr,), done),
    ensures
        start is Ok <==> hr >= 0,
        done is Ok <==> hr >= 0,
        object is Ok <==> hr >= 0 && !null,
        file is Ok <==> hr >= 0 && !null,
        fields is Ok <==> a >= 0 && b >= 0 && c >= 0 && d >= 0,
        hr < 0 ==> fails_with(start, "CoInitializeEx"@, hr) && fails_with(
            done,
            "IPersistFile::Save"@,
            hr,
        ) && fails_with(object, "CoCreateInstance(ShellLink)"@, hr) && fails_with(
            file,
            "IShellLinkW::QueryInterface(IPersistFile)"@,
            hr,
        ),
        hr >= 0 && null ==> fails_with(object, "CoCreateInstance(ShellLink)"@, -1i32),
        a < 0 ==> fails_with(fields, "IShellLinkW::SetPath"@, a),
        a >= 0 && b < 0 ==> fails_with(fields, "IShellLinkW::SetArguments"@, b),
        a >= 0 && b >= 0 && c < 0 ==> fails_with(fields, "IShellLinkW::SetWorkingDirectory"@, c),
        a >= 0 && b >= 0 && c >= 0 && d < 0 ==> fails_with(
            fields,
            "IShellLinkW::SetIconLocation"@,
            d,
        ),
{
}

/// A known folder is the text up to the first NUL of what the shell gave.
pub proof fn known_folders_are_read_up_to_nul(
    hr: i32,
    units: &[u16],
    r: Result<String, ShortcutError>,
    text: String,
)
    requires
        call_ensures(known_folder, (hr, units), r),
        call_ensures(decode_until_nul, (units,), text),
    ensures
        r is Ok <==> hr >= 0,
        r matches Ok(dir) ==> dir@ == text@,
        r matches Err(e) ==> e is Com && e->Com_hr == hr,
{
}

} // verus!
