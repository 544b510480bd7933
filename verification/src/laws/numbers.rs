//! Numbers as text, and text that is trimmed.

use crate::laws::rules::is_space;
use crate::number::{
    all_digits, decimal, decimal_text, digits_value, hex_fixed, hex_fixed_text, hex_lower,
    hex_lower_text, long_decimal_text, number_in, read_number, unsigned_body,
};
use crate::text::{
    alpha, chars_of, digit, ends_with_char, has_char, hex, is_digit, lower_char, lower_chars,
    same_text, slice_of, string_of, trim, trim_chars, trim_dots_spaces, trim_end, trim_end_cuts,
    trim_start, trim_start_cuts, upper_char, upper_chars, white_space,
};
use vstd::prelude::*;
use vstd::string::*;

verus! {

/// The decimal form of a number is its digits: that of a tenth of it, and the
/// last digit behind.
pub proof fn decimals_are_written_digit_by_digit(n: u64, r: String, tenth: String)
    requires
        call_ensures(decimal_text, (n,), r),
        call_ensures(decimal_text, ((n / 10) as u64,), tenth),
    ensures
        r@ == decimal(n as nat),
        n < 10 ==> r@ == seq!["0123456789"@[n as int]],
        n >= 10 ==> r@ == tenth@.push("0123456789"@[n as int % 10]),
{
    reveal_strlit("0123456789");
    let d: int = n as int % 10;
    if n >= 10 {
        assert(n as nat / 10 == (n / 10) as nat);
        assert(r@.last() == crate::number::digit_char((n as nat) % 10));
    }
    assert(0 <= d < 10);
    digit_is(d);
    assert(n < 10 ==> d == n);
}

proof fn digit_is(d: int)
    requires
        0 <= d < 10,
    ensures
        "0123456789"@[d] == crate::number::digit_char(d as nat),
{
    reveal_strlit("0123456789");
}

/// A long decimal form is the same for a number that is short enough.
pub proof fn long_decimals_are_decimals(n: u64, r: String, long: String)
    requires
        call_ensures(decimal_text, (n,), r),
        call_ensures(long_decimal_text, (n as u128,), long),
    ensures
        long@ == r@,
{
}

proof fn hex_digit_is(d: int)
    requires
        0 <= d < 16,
    ensures
        "0123456789ABCDEF"@[d] == crate::number::hex_char(d as nat),
        "0123456789abcdef"@[d] == crate::number::hex_char_lower(d as nat),
{
    reveal_strlit("0123456789ABCDEF");
    reveal_strlit("0123456789abcdef");
}

/// The hexadecimal form of a fixed width is its digits in upper case: that of
/// a sixteenth of the number, one shorter, and the last digit behind.
pub proof fn hexadecimals_are_written_digit_by_digit(
    n: u64,
    width: u8,
    r: String,
    sixteenth: String,
)
    requires
        call_ensures(hex_fixed_text, (n, width), r),
        width > 0 ==> call_ensures(
            hex_fixed_text,
            ((n / 16) as u64, (width - 1) as u8),
            sixteenth,
        ),
    ensures
        r@ == hex_fixed(n as nat, width as nat),
        r@.len() == width,
        width > 0 ==> r@ == sixteenth@.push("0123456789ABCDEF"@[n as int % 16]),
{
    crate::number::hex_fixed_digits(n as nat, width as nat);
    hex_digit_is(n as int % 16);
}

/// The lower-case form has no leading zeros: it is that of a sixteenth of the
/// number and the last digit behind.
pub proof fn lower_hexadecimals_are_written_digit_by_digit(n: u64, r: String, sixteenth: String)
    requires
        call_ensures(hex_lower_text, (n,), r),
        call_ensures(hex_lower_text, ((n / 16) as u64,), sixteenth),
    ensures
        r@ == hex_lower(n as nat),
        n < 16 ==> r@ == seq!["0123456789abcdef"@[n as int]],
        n >= 16 ==> r@ == sixteenth@.push("0123456789abcdef"@[n as int % 16]),
{
    hex_digit_is(n as int % 16);
}

// ---------- reading ----------

/// What decimal digits are worth: each ten times what the one behind it is.
pub open spec fn worth(digits: Seq<char>) -> int
    decreases digits.len(),
{
    if digits.len() == 0 {
        0
    } else {
        10 * worth(digits.drop_last()) + (digits.last() as int - '0' as int)
    }
}

/// Whether a text is one decimal digit or more and nothing else.
pub open spec fn is_digits(s: Seq<char>) -> bool {
    s.len() > 0 && forall|i: int| 0 <= i < s.len() ==> '0' <= (#[trigger] s[i]) <= '9'
}

/// Whether a text is the number: digits of that worth, with or without a plus
/// sign in front.
pub open spec fn denotes(s: Seq<char>, n: u64) -> bool {
    ||| is_digits(s) && worth(s) == n
    ||| s.len() > 0 && s[0] == '+' && is_digits(s.skip(1)) && worth(s.skip(1)) == n
}

proof fn worth_is_value(s: Seq<char>)
    requires
        forall|i: int| 0 <= i < s.len() ==> '0' <= (#[trigger] s[i]) <= '9',
    ensures
        worth(s) == digits_value(s),
    decreases s.len(),
{
    if s.len() > 0 {
        assert forall|i: int| 0 <= i < s.drop_last().len() implies '0' <= (
        #[trigger] s.drop_last()[i]) <= '9' by {
            assert(s.drop_last()[i] == s[i]);
        }
        worth_is_value(s.drop_last());
        assert('0' <= s[s.len() - 1] <= '9');
    }
}

proof fn numbers(s: Seq<char>)
    ensures
        forall|n: u64| number_in(s) == Some(n) <==> #[trigger] denotes(s, n),
{
    let body = unsigned_body(s);
    assert(all_digits(body) <==> is_digits(body)) by {
        if is_digits(body) {
            assert forall|i: int| 0 <= i < body.len() implies is_digit(#[trigger] body[i]) by {}
        }
    }
    if is_digits(body) {
        worth_is_value(body);
    }
    if is_digits(s) {
        assert('0' <= s[0] <= '9');
        worth_is_value(s);
    }
}

/// A number is read exactly where a text is one, and it is that number.
pub proof fn numbers_are_read_as_written(v: &Vec<char>, r: Option<u64>)
    requires
        call_ensures(read_number, (v,), r),
    ensures
        forall|n: u64| r == Some(n) <==> #[trigger] denotes(v@, n),
{
    numbers(v@);
}

// ---------- trimming ----------

/// Whether a part of a text is all of it but for white space at either end.
pub open spec fn is_all_but_space(s: Seq<char>, from: int, to: int) -> bool {
    &&& 0 <= from <= to <= s.len()
    &&& forall|i: int| 0 <= i < from ==> is_space(#[trigger] s[i])
    &&& forall|i: int| to <= i < s.len() ==> is_space(#[trigger] s[i])
    &&& from < to ==> !is_space(s[from]) && !is_space(s[to - 1])
}

proof fn trimmed(s: Seq<char>) -> (ends: (int, int))
    ensures
        is_all_but_space(s, ends.0, ends.1),
        trim(s) == s.subrange(ends.0, ends.1),
{
    let p = |c: char| white_space(c);
    trim_start_cuts(s, p);
    let t = trim_start(s, p);
    trim_end_cuts(t, p);
    let u = trim_end(t, p);
    let from = s.len() - t.len();
    let to = from + u.len();
    assert(u =~= s.subrange(from, to));
    assert forall|i: int| 0 <= i < from implies is_space(#[trigger] s[i]) by {
        assert(p(s[i]));
    }
    assert forall|i: int| to <= i < s.len() implies is_space(#[trigger] s[i]) by {
        assert(t[i - from] == s[i]);
        assert(p(t[i - from]));
    }
    if from < to {
        assert(t[0] == s[from] && !p(t[0]));
        assert(u.last() == s[to - 1] && !p(u.last()));
    }
    (from, to)
}

/// Trimming takes away the white space at either end and nothing else.
pub proof fn trimming_takes_the_ends_only(v: &Vec<char>, r: Vec<char>)
    requires
        call_ensures(trim_chars, (v,), r),
    ensures
        exists|from: int, to: int| #[trigger]
            is_all_but_space(v@, from, to) && r@ == v@.subrange(from, to),
{
    let (from, to) = trimmed(v@);
    assert(is_all_but_space(v@, from, to));
}

/// Of dots and spaces only those at the end are taken away, and all of them.
pub proof fn dots_and_spaces_go_from_the_end(v: &Vec<char>, r: Vec<char>)
    requires
        call_ensures(trim_dots_spaces, (v,), r),
    ensures
        r@.len() <= v@.len(),
        r@ == v@.take(r@.len() as int),
        forall|i: int| r@.len() <= i < v@.len() ==> #[trigger] v@[i] == '.' || v@[i] == ' ',
        r@.len() > 0 ==> r@[r@.len() - 1] != '.' && r@[r@.len() - 1] != ' ',
{
    let p = |c: char| c == '.' || c == ' ';
    trim_end_cuts(v@, p);
    assert forall|i: int| r@.len() <= i < v@.len() implies #[trigger] v@[i] == '.' || v@[i]
        == ' ' by {
        assert(p(v@[i]));
    }
    if r@.len() > 0 {
        assert(!p(r@.last()));
    }
}

/// Whether a text is the number, with white space around it or without.
pub open spec fn reads_as(s: Seq<char>, n: u64) -> bool {
    exists|from: int, to: int| #[trigger]
        is_all_but_space(s, from, to) && denotes(s.subrange(from, to), n)
}

pub(crate) proof fn reading(s: Seq<char>)
    ensures
        forall|n: u64| number_in(trim(s)) == Some(n) <==> #[trigger] reads_as(s, n),
{
    let (a, b) = trimmed(s);
    numbers(trim(s));
    assert forall|n: u64| number_in(trim(s)) == Some(n) <==> #[trigger] reads_as(s, n) by {
        if denotes(trim(s), n) {
            assert(is_all_but_space(s, a, b));
        }
        if reads_as(s, n) {
            let (from, to) = choose|from: int, to: int| #[trigger]
                is_all_but_space(s, from, to) && denotes(s.subrange(from, to), n);
            assert(from < to);
            assert(!is_space(s[from]) && !is_space(s[to - 1]));
            if a < b {
                assert(!is_space(s[a]) && !is_space(s[b - 1]));
                assert(a == from && b == to);
            } else {
                assert(from < a || from >= b);
            }
        }
    }
}

// ---------- characters ----------

/// The classes of ASCII characters, and their case: a letter changes to the
/// other case and back, and every other character stays what it is.
pub proof fn letters_change_case(
    c: char,
    is_digit: bool,
    is_letter: bool,
    is_hex: bool,
    upper: char,
    lower: char,
)
    requires
        call_ensures(digit, (c,), is_digit),
        call_ensures(alpha, (c,), is_letter),
        call_ensures(hex, (c,), is_hex),
        call_ensures(upper_char, (c,), upper),
        call_ensures(lower_char, (c,), lower),
    ensures
        is_digit <==> '0' <= c <= '9',
        is_letter <==> 'a' <= c <= 'z' || 'A' <= c <= 'Z',
        is_hex <==> '0' <= c <= '9' || 'a' <= c <= 'f' || 'A' <= c <= 'F',
        'a' <= c <= 'z' ==> upper as int == c as int - 32 && lower == c,
        'A' <= c <= 'Z' ==> lower as int == c as int + 32 && upper == c,
        !('a' <= c <= 'z' || 'A' <= c <= 'Z') ==> upper == c && lower == c,
{
}

/// A text changes case letter by letter.
pub proof fn texts_change_case_letter_by_letter(
    v: &Vec<char>,
    upper: Vec<char>,
    lower: Vec<char>,
    i: int,
    u: char,
    l: char,
)
    requires
        call_ensures(upper_chars, (v,), upper),
        call_ensures(lower_chars, (v,), lower),
        0 <= i < v@.len(),
        call_ensures(upper_char, (v@[i],), u),
        call_ensures(lower_char, (v@[i],), l),
    ensures
        upper@.len() == v@.len(),
        lower@.len() == v@.len(),
        upper@[i] == u,
        lower@[i] == l,
{
}

/// A text is its characters, and its parts are those of the characters.
pub proof fn texts_are_their_characters(
    s: &str,
    t: &str,
    c: char,
    chars: Vec<char>,
    units: &[char],
    whole: String,
    from: usize,
    to: usize,
    part: Vec<char>,
    same: bool,
    has: bool,
    ends: bool,
)
    requires
        call_ensures(chars_of, (s,), chars),
        call_ensures(string_of, (units,), whole),
        from <= to <= chars@.len(),
        call_ensures(slice_of, (&chars, from, to), part),
        call_ensures(same_text, (s, t), same),
        call_ensures(has_char, (s, c), has),
        call_ensures(ends_with_char, (s, c), ends),
    ensures
        chars@ == s@,
        whole@ == units@,
        part@ == s@.subrange(from as int, to as int),
        same <==> s@ == t@,
        has <==> exists|i: int| 0 <= i < s@.len() && #[trigger] s@[i] == c,
        ends <==> s@.len() > 0 && s@[s@.len() - 1] == c,
{
}

} // verus!
