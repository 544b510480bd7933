//! UTF-16: the text form that Windows calls take and give.

use crate::text::{chars_of, string_of};
use vstd::prelude::*;

verus! {

/// Whether a number is a Unicode scalar value, which is what a `char` holds.
pub open spec fn is_scalar(n: u32) -> bool {
    n < 0xD800 || 0xE000 <= n <= 0x10FFFF
}

/// `char::from_u32`: the character with the given scalar value, or `None`
/// when the number is no Unicode scalar value.
pub assume_specification[ char::from_u32 ](i: u32) -> (r: Option<char>)
    ensures
        r == if is_scalar(i) {
            Some(i as char)
        } else {
            None
        },
;

// ---------- model ----------

/// A unit that starts a surrogate pair.
pub open spec fn is_high(u: u16) -> bool {
    0xD800 <= u < 0xDC00
}

/// A unit that ends a surrogate pair.
pub open spec fn is_low(u: u16) -> bool {
    0xDC00 <= u < 0xE000
}

/// The character of a surrogate pair.
pub open spec fn pair_char(high: u16, low: u16) -> char {
    (0x10000 + (high - 0xD800) * 0x400 + (low - 0xDC00)) as char
}

/// The one or two units of a character.
pub open spec fn utf16_char(c: char) -> Seq<u16> {
    if (c as u32) < 0x10000 {
        seq![c as u16]
    } else {
        seq![
            (0xD800 + (c as u32 - 0x10000) / 0x400) as u16,
            (0xDC00 + (c as u32 - 0x10000) % 0x400) as u16,
        ]
    }
}

/// The units of a text.
pub open spec fn utf16(s: Seq<char>) -> Seq<u16>
    decreases s.len(),
{
    if s.len() == 0 {
        Seq::empty()
    } else {
        utf16_char(s[0]) + utf16(s.drop_first())
    }
}

/// The units of a text and a terminating NUL.
pub open spec fn wide(s: Seq<char>) -> Seq<u16> {
    utf16(s).push(0)
}

/// The text that a sequence of units encodes; `None` when a surrogate stands
/// alone in it.
pub open spec fn utf16_text(u: Seq<u16>) -> Option<Seq<char>>
    decreases u.len(),
{
    if u.len() == 0 {
        Some(Seq::empty())
    } else if !is_high(u[0]) && !is_low(u[0]) {
        match utf16_text(u.skip(1)) {
            Some(rest) => Some(seq![u[0] as char] + rest),
            None => None,
        }
    } else if u.len() > 1 && is_high(u[0]) && is_low(u[1]) {
        match utf16_text(u.skip(2)) {
            Some(rest) => Some(seq![pair_char(u[0], u[1])] + rest),
            None => None,
        }
    } else {
        None
    }
}

/// The text of a sequence of units, with U+FFFD in the place of each
/// surrogate that stands alone.
pub open spec fn utf16_text_lossy(u: Seq<u16>) -> Seq<char>
    decreases u.len(),
{
    if u.len() == 0 {
        Seq::empty()
    } else if !is_high(u[0]) && !is_low(u[0]) {
        seq![u[0] as char] + utf16_text_lossy(u.skip(1))
    } else if u.len() > 1 && is_high(u[0]) && is_low(u[1]) {
        seq![pair_char(u[0], u[1])] + utf16_text_lossy(u.skip(2))
    } else {
        seq!['\u{fffd}'] + utf16_text_lossy(u.skip(1))
    }
}

/// The units before the first NUL, or all of them.
pub open spec fn until_nul(u: Seq<u16>) -> Seq<u16>
    decreases u.len(),
{
    if u.len() == 0 || u[0] == 0 {
        Seq::empty()
    } else {
        seq![u[0]] + until_nul(u.skip(1))
    }
}

// ---------- laws ----------

/// A character is a Unicode scalar value.
pub proof fn char_is_scalar(c: char)
    ensures
        0 <= c as int <= 0x10FFFF,
        is_scalar(c as u32),
        c as u32 == c as int,
{
}

/// The units of two texts one after the other are the units of the joined
/// text.
pub proof fn utf16_concat(a: Seq<char>, b: Seq<char>)
    ensures
        utf16(a + b) == utf16(a) + utf16(b),
    decreases a.len(),
{
    if a.len() == 0 {
        assert(a + b =~= b);
        assert(utf16(a) + utf16(b) =~= utf16(b));
    } else {
        utf16_concat(a.drop_first(), b);
        assert((a + b).drop_first() =~= a.drop_first() + b);
        assert((a + b)[0] == a[0]);
        assert(utf16_char(a[0]) + (utf16(a.drop_first()) + utf16(b)) =~= utf16(a) + utf16(b));
    }
}

/// Decoding the units of a text gives the text back.
pub proof fn utf16_text_of_utf16(s: Seq<char>)
    ensures
        utf16_text(utf16(s)) == Some(s),
    decreases s.len(),
{
    if s.len() == 0 {
        assert(s =~= Seq::<char>::empty());
    } else {
        let c = s[0];
        let rest = utf16(s.drop_first());
        utf16_text_of_utf16(s.drop_first());
        let u = utf16(s);
        char_is_scalar(c);
        let n = c as u32;
        if n < 0x10000 {
            assert(u.skip(1) =~= rest);
            assert(u[0] == c as u16);
            assert(u[0] as char == c);
        } else {
            assert(u.skip(2) =~= rest);
            let k = n - 0x10000;
            assert(k < 0x100000);
            assert(k == (k / 0x400) * 0x400 + k % 0x400);
            assert(pair_char(u[0], u[1]) == c);
        }
        assert(seq![c] + s.drop_first() =~= s);
    }
}

/// Units that decode are the units of the text they decode to.
pub proof fn utf16_of_utf16_text(u: Seq<u16>)
    ensures
        utf16_text(u) matches Some(s) ==> utf16(s) == u,
    decreases u.len(),
{
    if u.len() > 0 {
        if !is_high(u[0]) && !is_low(u[0]) {
            utf16_of_utf16_text(u.skip(1));
            if let Some(rest) = utf16_text(u.skip(1)) {
                let s = seq![u[0] as char] + rest;
                assert(s.drop_first() =~= rest);
                assert((u[0] as char) as u16 == u[0]);
                assert(seq![u[0]] + u.skip(1) =~= u);
            }
        } else if u.len() > 1 && is_high(u[0]) && is_low(u[1]) {
            utf16_of_utf16_text(u.skip(2));
            if let Some(rest) = utf16_text(u.skip(2)) {
                let c = pair_char(u[0], u[1]);
                let s = seq![c] + rest;
                assert(s.drop_first() =~= rest);
                let k = (u[0] - 0xD800) * 0x400 + (u[1] - 0xDC00);
                assert(k / 0x400 == u[0] - 0xD800 && k % 0x400 == u[1] - 0xDC00);
                assert(seq![u[0], u[1]] + u.skip(2) =~= u);
            }
        }
    }
}

/// Units of a text without NUL hold no NUL.
pub proof fn utf16_keeps_nul_out(s: Seq<char>)
    requires
        !s.contains('\0'),
    ensures
        !utf16(s).contains(0u16),
    decreases s.len(),
{
    if s.len() > 0 {
        assert(s[0] != '\0');
        char_is_scalar(s[0]);
        assert forall|i: int| 0 <= i < s.drop_first().len() implies s.drop_first()[i] != '\0' by {
            assert(s.drop_first()[i] == s[i + 1]);
        }
        utf16_keeps_nul_out(s.drop_first());
        let rest = utf16(s.drop_first());
        let first = utf16_char(s[0]);
        assert forall|i: int| 0 <= i < utf16(s).len() implies utf16(s)[i] != 0 by {
            if i >= first.len() {
                assert(rest.contains(rest[i - first.len()]));
                assert(utf16(s)[i] == rest[i - first.len()]);
            } else {
                assert(utf16(s)[i] == first[i]);
            }
        }
    }
}

/// Each ASCII character takes one unit.
pub proof fn units_of_ascii(s: Seq<char>)
    requires
        forall|i: int| 0 <= i < s.len() ==> #[trigger] s[i] < '\u{80}',
    ensures
        utf16(s).len() == s.len(),
    decreases s.len(),
{
    if s.len() > 0 {
        assert(s[0] < '\u{80}');
        char_is_scalar(s[0]);
        assert forall|i: int| 0 <= i < s.drop_first().len() implies #[trigger] s.drop_first()[i]
            < '\u{80}' by {
            assert(s.drop_first()[i] == s[i + 1]);
        }
        units_of_ascii(s.drop_first());
    }
}

// ---------- encoding ----------

/// Encodes a text as UTF-16.
pub fn encode_utf16(s: &str) -> (u: Vec<u16>)
    ensures
        u@ == utf16(s@),
{
    let v = chars_of(s);
    let mut u: Vec<u16> = Vec::new();
    let mut i: usize = 0;
    while i < v.len()
        invariant
            v@ == s@,
            i <= v@.len(),
            u@ == utf16(v@.take(i as int)),
        decreases v@.len() - i,
    {
        let n: u32 = v[i] as u32;
        proof {
            let c = v@[i as int];
            char_is_scalar(c);
            assert(v@.take(i + 1) =~= v@.take(i as int) + seq![c]);
            utf16_concat(v@.take(i as int), seq![c]);
            assert(seq![c].drop_first() =~= Seq::<char>::empty());
            assert(utf16(Seq::<char>::empty()) =~= Seq::<u16>::empty());
            assert(utf16(seq![c]) =~= utf16_char(c));
        }
        if n < 0x10000 {
            u.push(n as u16);
        } else {
            u.push((0xD800 + (n - 0x10000) / 0x400) as u16);
            u.push((0xDC00 + (n - 0x10000) % 0x400) as u16);
        }
        i += 1;
    }
    assert(v@.take(v@.len() as int) =~= v@);
    u
}

/// Encodes a text as NUL-terminated UTF-16.
pub fn encode_wide(s: &str) -> (u: Vec<u16>)
    ensures
        u@ == wide(s@),
{
    let mut u = encode_utf16(s);
    u.push(0);
    u
}

// ---------- decoding ----------

fn scalar(n: u32) -> (c: char)
    requires
        is_scalar(n),
    ensures
        c == n as char,
{
    match char::from_u32(n) {
        Some(c) => c,
        None => '\0',
    }
}

/// Decodes UTF-16, or `None` when a surrogate stands alone.
pub fn decode_utf16(u: &[u16]) -> (r: Option<String>)
    ensures
        match r {
            Some(s) => utf16_text(u@) == Some(s@),
            None => utf16_text(u@) is None,
        },
{
    let mut out: Vec<char> = Vec::new();
    let mut i: usize = 0;
    assert(u@.skip(0) =~= u@);
    while i < u.len()
        invariant
            i <= u@.len(),
            match utf16_text(u@.skip(i as int)) {
                Some(rest) => utf16_text(u@) == Some(out@ + rest),
                None => utf16_text(u@) is None,
            },
        decreases u@.len() - i,
    {
        let ghost before = out@;
        let ghost tail = u@.skip(i as int);
        let a: u16 = u[i];
        assert(tail[0] == a);
        if a < 0xD800 || a >= 0xE000 {
            out.push(scalar(a as u32));
            assert(tail.skip(1) =~= u@.skip(i + 1));
            proof {
                if let Some(rest) = utf16_text(u@.skip(i + 1)) {
                    assert(before + (seq![a as char] + rest) =~= out@ + rest);
                }
            }
            i += 1;
        } else if a < 0xDC00 && i + 1 < u.len() && 0xDC00 <= u[i + 1] && u[i + 1] < 0xE000 {
            let b: u16 = u[i + 1];
            assert(tail[1] == b);
            out.push(scalar(0x10000 + (a as u32 - 0xD800) * 0x400 + (b as u32 - 0xDC00)));
            assert(tail.skip(2) =~= u@.skip(i + 2));
            proof {
                if let Some(rest) = utf16_text(u@.skip(i + 2)) {
                    assert(before + (seq![pair_char(a, b)] + rest) =~= out@ + rest);
                }
            }
            i += 2;
        } else {
            return None;
        }
    }
    assert(out@ + Seq::<char>::empty() =~= out@);
    Some(string_of(&out))
}

/// Decodes UTF-16 with U+FFFD for each surrogate that stands alone.
pub fn decode_utf16_lossy(u: &[u16]) -> (s: String)
    ensures
        s@ == utf16_text_lossy(u@),
{
    let mut out: Vec<char> = Vec::new();
    let mut i: usize = 0;
    assert(u@.skip(0) =~= u@);
    while i < u.len()
        invariant
            i <= u@.len(),
            utf16_text_lossy(u@) == out@ + utf16_text_lossy(u@.skip(i as int)),
        decreases u@.len() - i,
    {
        let ghost before = out@;
        let ghost tail = u@.skip(i as int);
        let a: u16 = u[i];
        assert(tail[0] == a);
        if a < 0xD800 || a >= 0xE000 {
            out.push(scalar(a as u32));
            assert(tail.skip(1) =~= u@.skip(i + 1));
            assert(before + (seq![a as char] + utf16_text_lossy(u@.skip(i + 1))) =~= out@
                + utf16_text_lossy(u@.skip(i + 1)));
            i += 1;
        } else if a < 0xDC00 && i + 1 < u.len() && 0xDC00 <= u[i + 1] && u[i + 1] < 0xE000 {
            let b: u16 = u[i + 1];
            assert(tail[1] == b);
            out.push(scalar(0x10000 + (a as u32 - 0xD800) * 0x400 + (b as u32 - 0xDC00)));
            assert(tail.skip(2) =~= u@.skip(i + 2));
            assert(before + (seq![pair_char(a, b)] + utf16_text_lossy(u@.skip(i + 2))) =~= out@
                + utf16_text_lossy(u@.skip(i + 2)));
            i += 2;
        } else {
            out.push('\u{fffd}');
            assert(tail.skip(1) =~= u@.skip(i + 1));
            assert(before + (seq!['\u{fffd}'] + utf16_text_lossy(u@.skip(i + 1))) =~= out@
                + utf16_text_lossy(u@.skip(i + 1)));
            i += 1;
        }
    }
    assert(out@ + Seq::<char>::empty() =~= out@);
    string_of(&out)
}

/// Decodes the part of a buffer before its first NUL, with U+FFFD for each
/// surrogate that stands alone.
pub fn decode_until_nul(u: &[u16]) -> (s: String)
    ensures
        s@ == utf16_text_lossy(until_nul(u@)),
{
    let mut cut: Vec<u16> = Vec::new();
    let mut i: usize = 0;
    assert(u@.skip(0) =~= u@);
    while i < u.len() && u[i] != 0
        invariant
            i <= u@.len(),
            until_nul(u@) == cut@ + until_nul(u@.skip(i as int)),
        decreases u@.len() - i,
    {
        let ghost before = cut@;
        let ghost tail = u@.skip(i as int);
        cut.push(u[i]);
        assert(tail.skip(1) =~= u@.skip(i + 1));
        assert(before + (seq![u@[i as int]] + until_nul(u@.skip(i + 1))) =~= cut@ + until_nul(
            u@.skip(i + 1),
        ));
        i += 1;
    }
    assert(cut@ + Seq::<u16>::empty() =~= cut@);
    decode_utf16_lossy(&cut)
}

} // verus!
