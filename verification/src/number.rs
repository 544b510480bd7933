//! Numbers as text: decimal and hexadecimal digits, and reading decimals back.

use crate::text::{is_digit, is_hex, string_of};
use vstd::prelude::*;

verus! {

/// The decimal digit of a value below ten.
pub open spec fn digit_char(d: nat) -> char {
    (48 + d) as char
}

/// The decimal form of a number, without leading zeros.
pub open spec fn decimal(n: nat) -> Seq<char>
    decreases n,
{
    if n < 10 {
        seq![digit_char(n)]
    } else {
        decimal(n / 10).push(digit_char(n % 10))
    }
}

/// The number that a sequence of decimal digits denotes.
pub open spec fn digits_value(s: Seq<char>) -> nat
    decreases s.len(),
{
    if s.len() == 0 {
        0
    } else {
        (10 * digits_value(s.drop_last()) + (s.last() as nat - 48)) as nat
    }
}

/// Whether a text is a nonempty run of decimal digits.
pub open spec fn all_digits(s: Seq<char>) -> bool {
    s.len() > 0 && forall|i: int| 0 <= i < s.len() ==> is_digit(#[trigger] s[i])
}

/// The digits of a number that may carry a leading `+`.
pub open spec fn unsigned_body(s: Seq<char>) -> Seq<char> {
    if s.len() > 0 && s[0] == '+' {
        s.skip(1)
    } else {
        s
    }
}

/// The `u64` that a text denotes: an optional `+`, then one or more decimal
/// digits and nothing else, of a value that fits.
pub open spec fn number_in(s: Seq<char>) -> Option<u64> {
    let body = unsigned_body(s);
    if all_digits(body) && digits_value(body) <= u64::MAX {
        Some(digits_value(body) as u64)
    } else {
        None
    }
}

/// The decimal form of a number is made of digits and denotes that number.
pub proof fn decimal_denotes(n: nat)
    ensures
        all_digits(decimal(n)),
        digits_value(decimal(n)) == n,
    decreases n,
{
    if n < 10 {
        assert(decimal(n).drop_last() =~= Seq::<char>::empty());
        assert(digits_value(Seq::<char>::empty()) == 0);
    } else {
        decimal_denotes(n / 10);
        assert(decimal(n).drop_last() =~= decimal(n / 10));
    }
}

/// Two different numbers have different decimal forms.
pub proof fn decimal_is_injective(a: nat, b: nat)
    requires
        decimal(a) == decimal(b),
    ensures
        a == b,
{
    decimal_denotes(a);
    decimal_denotes(b);
}

/// Reading the decimal form of a `u64` gives the number back.
pub proof fn number_in_decimal(n: u64)
    ensures
        number_in(decimal(n as nat)) == Some(n),
{
    decimal_denotes(n as nat);
    assert(is_digit(decimal(n as nat)[0]));
}

fn decimal_chars(n: u128) -> (v: Vec<char>)
    ensures
        v@ == decimal(n as nat),
    decreases n,
{
    if n < 10 {
        let c: char = (48u8 + n as u8) as char;
        let mut v: Vec<char> = Vec::new();
        v.push(c);
        assert(v@ =~= decimal(n as nat));
        v
    } else {
        let mut v = decimal_chars(n / 10);
        let c: char = (48u8 + (n % 10) as u8) as char;
        v.push(c);
        v
    }
}

/// The decimal form of a number.
pub fn decimal_text(n: u64) -> (s: String)
    ensures
        s@ == decimal(n as nat),
{
    string_of(&decimal_chars(n as u128))
}

/// The decimal form of a number that may be past 64 bits.
pub fn long_decimal_text(n: u128) -> (s: String)
    ensures
        s@ == decimal(n as nat),
{
    string_of(&decimal_chars(n))
}

proof fn digits_value_prefix(s: Seq<char>, i: int)
    requires
        0 <= i <= s.len(),
        forall|j: int| 0 <= j < s.len() ==> is_digit(#[trigger] s[j]),
    ensures
        digits_value(s.take(i)) <= digits_value(s),
    decreases s.len() - i,
{
    if i < s.len() {
        digits_value_prefix(s, i + 1);
        assert(s.take(i + 1).drop_last() =~= s.take(i));
        assert(is_digit(s[i]));
    } else {
        assert(s.take(i) =~= s);
    }
}

/// Reads an unsigned number: an optional `+`, then digits only.
pub fn read_number(v: &Vec<char>) -> (r: Option<u64>)
    ensures
        r == number_in(v@),
{
    let start: usize = if v.len() > 0 && v[0] == '+' {
        1
    } else {
        0
    };
    let ghost body = unsigned_body(v@);
    assert(body =~= v@.skip(start as int));
    if v.len() == start {
        return None;
    }
    let mut i: usize = start;
    let mut value: u64 = 0;
    assert(body.take(0) =~= Seq::<char>::empty());
    while i < v.len()
        invariant
            start <= i <= v@.len(),
            start < v@.len(),
            body == unsigned_body(v@),
            body == v@.skip(start as int),
            forall|j: int| 0 <= j < i - start ==> is_digit(#[trigger] body[j]),
            value == digits_value(body.take(i - start)),
        decreases v@.len() - i,
    {
        let c = v[i];
        assert(c == body[i - start]);
        if !('0' <= c && c <= '9') {
            return None;
        }
        let d: u64 = c as u64 - 48;
        assert(body.take(i - start + 1).drop_last() =~= body.take(i - start));
        assert(body.take(i - start + 1).last() == c);
        if value > (u64::MAX - d) / 10 {
            proof {
                assert(digits_value(body.take(i - start + 1)) == 10 * value + d);
                assert(10 * value + d > u64::MAX);
                if all_digits(body) {
                    digits_value_prefix(body, i - start + 1);
                }
            }
            return None;
        }
        value = value * 10 + d;
        i += 1;
    }
    assert(body.take(body.len() as int) =~= body);
    Some(value)
}

// ---------- hexadecimal ----------

/// The upper-case hexadecimal digit of a value below sixteen.
pub open spec fn hex_char(d: nat) -> char {
    if d < 10 {
        (48 + d) as char
    } else {
        (55 + d) as char
    }
}

/// The lower-case hexadecimal digit of a value below sixteen.
pub open spec fn hex_char_lower(d: nat) -> char {
    if d < 10 {
        (48 + d) as char
    } else {
        (87 + d) as char
    }
}

/// The last `width` upper-case hexadecimal digits of a number, padded with
/// zeros.
pub open spec fn hex_fixed(n: nat, width: nat) -> Seq<char>
    decreases width,
{
    if width == 0 {
        Seq::empty()
    } else {
        hex_fixed(n / 16, (width - 1) as nat).push(hex_char(n % 16))
    }
}

/// The lower-case hexadecimal form of a number, without leading zeros.
pub open spec fn hex_lower(n: nat) -> Seq<char>
    decreases n,
{
    if n < 16 {
        seq![hex_char_lower(n)]
    } else {
        hex_lower(n / 16).push(hex_char_lower(n % 16))
    }
}

/// A fixed-width hexadecimal form has the given width and upper-case digits.
pub proof fn hex_fixed_digits(n: nat, width: nat)
    ensures
        hex_fixed(n, width).len() == width,
        forall|i: int|
            0 <= i < width ==> is_hex(#[trigger] hex_fixed(n, width)[i]) && !crate::text::is_lower(
                hex_fixed(n, width)[i],
            ),
    decreases width,
{
    if width > 0 {
        hex_fixed_digits(n / 16, (width - 1) as nat);
    }
}

/// Sixteen to the power of `width`.
pub open spec fn power_of_16(width: nat) -> nat
    decreases width,
{
    if width == 0 {
        1
    } else {
        16 * power_of_16((width - 1) as nat)
    }
}

/// Numbers that fit the width have different fixed-width forms.
pub proof fn hex_fixed_is_injective(a: nat, b: nat, width: nat)
    requires
        a < power_of_16(width),
        b < power_of_16(width),
        hex_fixed(a, width) == hex_fixed(b, width),
    ensures
        a == b,
    decreases width,
{
    if width > 0 {
        let w = (width - 1) as nat;
        assert(hex_fixed(a, width).drop_last() =~= hex_fixed(a / 16, w));
        assert(hex_fixed(b, width).drop_last() =~= hex_fixed(b / 16, w));
        assert(hex_fixed(a, width).last() == hex_char(a % 16));
        assert(hex_fixed(b, width).last() == hex_char(b % 16));
        hex_fixed_is_injective(a / 16, b / 16, w);
    }
}

fn hex_fixed_chars(n: u64, width: u8) -> (v: Vec<char>)
    ensures
        v@ == hex_fixed(n as nat, width as nat),
    decreases width,
{
    if width == 0 {
        Vec::new()
    } else {
        let mut v = hex_fixed_chars(n / 16, width - 1);
        let d: u8 = (n % 16) as u8;
        let c: char = if d < 10 {
            (48u8 + d) as char
        } else {
            (55u8 + d) as char
        };
        v.push(c);
        v
    }
}

/// The last `width` upper-case hexadecimal digits of a number.
pub fn hex_fixed_text(n: u64, width: u8) -> (s: String)
    ensures
        s@ == hex_fixed(n as nat, width as nat),
{
    string_of(&hex_fixed_chars(n, width))
}

fn hex_lower_chars(n: u64) -> (v: Vec<char>)
    ensures
        v@ == hex_lower(n as nat),
    decreases n,
{
    let d: u8 = (n % 16) as u8;
    let c: char = if d < 10 {
        (48u8 + d) as char
    } else {
        (87u8 + d) as char
    };
    if n < 16 {
        let mut v: Vec<char> = Vec::new();
        v.push(c);
        assert(v@ =~= hex_lower(n as nat));
        v
    } else {
        let mut v = hex_lower_chars(n / 16);
        v.push(c);
        v
    }
}

/// The lower-case hexadecimal form of a number.
pub fn hex_lower_text(n: u64) -> (s: String)
    ensures
        s@ == hex_lower(n as nat),
{
    string_of(&hex_lower_chars(n))
}

} // verus!
