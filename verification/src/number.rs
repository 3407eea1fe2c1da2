//! Unsigned numbers as text: how a number is written in decimal, and which
//! field text stands for a number.

use vstd::prelude::*;
use vstd::string::StringSliceAdditionalSpecFns;

verus! {

/// The character of a decimal digit.
pub open spec fn digit_char(d: nat) -> char
    recommends
        d < 10,
{
    if d == 0 {
        '0'
    } else if d == 1 {
        '1'
    } else if d == 2 {
        '2'
    } else if d == 3 {
        '3'
    } else if d == 4 {
        '4'
    } else if d == 5 {
        '5'
    } else if d == 6 {
        '6'
    } else if d == 7 {
        '7'
    } else if d == 8 {
        '8'
    } else {
        '9'
    }
}

/// A number written in decimal: most significant digit first, no sign, no
/// leading zero but for zero itself.
pub open spec fn decimal_digits(n: nat) -> Seq<char>
    decreases n,
{
    if n < 10 {
        seq![digit_char(n)]
    } else {
        decimal_digits(n / 10).push(digit_char(n % 10))
    }
}

/// The text of one decimal digit.
fn digit_text(d: u16) -> (text: &'static str)
    requires
        d < 10,
    ensures
        text@ == seq![digit_char(d as nat)],
{
    proof {
        reveal_strlit("0");
        reveal_strlit("1");
        reveal_strlit("2");
        reveal_strlit("3");
        reveal_strlit("4");
        reveal_strlit("5");
        reveal_strlit("6");
        reveal_strlit("7");
        reveal_strlit("8");
        reveal_strlit("9");
    }
    let text = if d == 0 {
        "0"
    } else if d == 1 {
        "1"
    } else if d == 2 {
        "2"
    } else if d == 3 {
        "3"
    } else if d == 4 {
        "4"
    } else if d == 5 {
        "5"
    } else if d == 6 {
        "6"
    } else if d == 7 {
        "7"
    } else if d == 8 {
        "8"
    } else {
        "9"
    };
    text
}

/// Appends the decimal form of `n` to `out`.
pub fn push_decimal(out: &mut String, n: u16)
    ensures
        final(out)@ == old(out)@ + decimal_digits(n as nat),
    decreases n,
{
    if n >= 10 {
        push_decimal(out, n / 10);
    }
    out.append(digit_text(n % 10));
}

/// The decimal form of `n` as a string of its own.
pub fn decimal_string(n: u16) -> (text: String)
    ensures
        text@ == decimal_digits(n as nat),
{
    let mut text = String::new();
    push_decimal(&mut text, n);
    text
}

/// The value of a digit in the given radix, ten or sixteen: the decimal
/// digits, and in radix sixteen also the letters `a` to `f` in either case.
pub open spec fn digit_value(c: char, radix: nat) -> Option<nat> {
    if '0' <= c && c <= '9' {
        Some((c as nat - '0' as nat) as nat)
    } else if radix == 16 && 'a' <= c && c <= 'f' {
        Some((c as nat - 'a' as nat + 10) as nat)
    } else if radix == 16 && 'A' <= c && c <= 'F' {
        Some((c as nat - 'A' as nat + 10) as nat)
    } else {
        None
    }
}

/// Every character is a digit in the given radix.
pub open spec fn all_digits(digits: Seq<char>, radix: nat) -> bool {
    forall|i: int| 0 <= i < digits.len() ==> (#[trigger] digit_value(digits[i], radix)) is Some
}

/// The number that a run of digits stands for, most significant digit first.
pub open spec fn digits_value(digits: Seq<char>, radix: nat) -> nat
    decreases digits.len(),
{
    if digits.len() == 0 {
        0
    } else {
        digits_value(digits.drop_last(), radix) * radix + digit_value(
            digits.last(),
            radix,
        ).unwrap()
    }
}

/// The text without the plus sign that may stand in front of it.
pub open spec fn without_sign(text: Seq<char>) -> Seq<char> {
    if text.len() > 0 && text[0] == '+' {
        text.drop_first()
    } else {
        text
    }
}

/// The number written by `text` in the given radix: an optional plus sign,
/// then one digit or more and nothing else.
pub open spec fn radix_number(text: Seq<char>, radix: nat) -> Option<nat> {
    let digits = without_sign(text);
    if digits.len() > 0 && all_digits(digits, radix) {
        Some(digits_value(digits, radix))
    } else {
        None
    }
}

/// The text starts with `0x`, which announces a number in radix sixteen.
pub open spec fn has_hex_prefix(text: Seq<char>) -> bool {
    text.len() >= 2 && text[0] == '0' && text[1] == 'x'
}

/// The number that a field's text stands for: in radix sixteen after the
/// prefix `0x`, in decimal without it.
pub open spec fn field_number(text: Seq<char>) -> Option<nat> {
    if has_hex_prefix(text) {
        radix_number(text.skip(2), 16)
    } else {
        radix_number(text, 10)
    }
}

/// The number of sixteen bits that a field's text stands for, if it stands
/// for one.
pub open spec fn field_u16(text: Seq<char>) -> Option<u16> {
    match field_number(text) {
        Some(n) => if n <= u16::MAX {
            Some(n as u16)
        } else {
            None
        },
        None => None,
    }
}

/// A run of digits stands for no less than any run it starts with.
proof fn lemma_digits_value_grows(digits: Seq<char>, radix: nat, k: int)
    requires
        radix >= 1,
        0 <= k <= digits.len(),
    ensures
        digits_value(digits.take(k), radix) <= digits_value(digits, radix),
    decreases digits.len(),
{
    if k == digits.len() {
        assert(digits.take(k) =~= digits);
    } else {
        lemma_digits_value_grows(digits.drop_last(), radix, k);
        assert(digits.drop_last().take(k) =~= digits.take(k));
        let shorter = digits_value(digits.drop_last(), radix);
        assert(shorter <= shorter * radix) by (nonlinear_arith)
            requires
                radix >= 1,
        ;
    }
}

/// Text that stands for a number holds ASCII characters only.
proof fn lemma_number_text_is_ascii(text: Seq<char>)
    requires
        field_number(text) is Some,
    ensures
        vstd::utf8::is_ascii_chars(text),
{
    assert forall|i: int| 0 <= i < text.len() implies '\0' <= #[trigger] text[i] && text[i]
        <= '\u{7f}' by {
        if has_hex_prefix(text) {
            let rest = text.skip(2);
            let digits = without_sign(rest);
            if i >= 2 {
                if rest[0] == '+' {
                    if i >= 3 {
                        assert(digit_value(digits[i - 3], 16) is Some);
                    }
                } else {
                    assert(digit_value(digits[i - 2], 16) is Some);
                }
            }
        } else {
            let digits = without_sign(text);
            if text[0] == '+' {
                if i >= 1 {
                    assert(digit_value(digits[i - 1], 10) is Some);
                }
            } else {
                assert(digit_value(digits[i], 10) is Some);
            }
        }
    }
}

/// The value of an ASCII character as a digit in radix ten or sixteen.
fn digit_of(b: u8, radix: u32) -> (value: Option<u32>)
    requires
        b < 128,
        radix == 10 || radix == 16,
    ensures
        value matches Some(v) ==> v < radix && digit_value(b as char, radix as nat) == Some(
            v as nat,
        ),
        value is None ==> digit_value(b as char, radix as nat) is None,
{
    if 48 <= b && b <= 57 {
        Some((b - 48) as u32)
    } else if radix == 16 && 97 <= b && b <= 102 {
        Some((b - 97 + 10) as u32)
    } else if radix == 16 && 65 <= b && b <= 70 {
        Some((b - 65 + 10) as u32)
    } else {
        None
    }
}

/// Decodes a field's text as a number of sixteen bits: decimal digits, or
/// `0x` and digits in radix sixteen, in both forms with an optional plus sign
/// before the digits. Text that holds anything else, holds no digit, or
/// stands for a number above 65535 is no such number.
pub fn parse_u16(field: &str) -> (number: Option<u16>)
    ensures
        number == field_u16(field@),
{
    if !field.is_ascii() {
        proof {
            if field_number(field@) is Some {
                lemma_number_text_is_ascii(field@);
            }
        }
        return None;
    }
    let bytes = field.as_bytes();
    let len = bytes.len();
    proof {
        vstd::string::is_ascii_spec_bytes(field);
    }
    let mut radix: u32 = 10;
    let mut start: usize = 0;
    if len >= 2 && bytes[0] == 48 && bytes[1] == 120 {
        radix = 16;
        start = 2;
    }
    let ghost rest = field@.skip(start as int);
    assert(field@.skip(0) =~= field@);
    if start < len && bytes[start] == 43 {
        start += 1;
    }
    let ghost digits = without_sign(rest);
    if start == len {
        return None;
    }
    let mut value: u32 = 0;
    let mut i: usize = start;
    while i < len
        invariant
            field.is_ascii(),
            len == field@.len(),
            bytes@ == field.spec_bytes(),
            start <= i <= len,
            radix == 10 || radix == 16,
            digits == field@.skip(start as int),
            digits.len() > 0,
            field_number(field@) == radix_number(rest, radix as nat),
            digits == without_sign(rest),
            all_digits(digits.take(i - start), radix as nat),
            value == digits_value(digits.take(i - start), radix as nat),
            value <= u16::MAX,
        decreases len - i,
    {
        let b = bytes[i];
        assert(digits[i - start] == field@[i as int]);
        let ghost shorter = digits.take(i - start);
        let ghost longer = digits.take(i - start + 1);
        assert(longer.drop_last() =~= shorter);
        match digit_of(b, radix) {
            None => {
                return None;
            },
            Some(d) => {
                let next = value * radix + d;
                if next > 65535 {
                    proof {
                        lemma_digits_value_grows(digits, radix as nat, i - start + 1);
                    }
                    return None;
                }
                value = next;
            },
        }
        i += 1;
    }
    assert(digits.take(i - start) =~= digits);
    Some(value as u16)
}

} // verus!
