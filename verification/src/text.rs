//! Text: concatenation, hexadecimal and decimal digits, and file paths.
use crate::bytes::same_bytes;
use vstd::prelude::*;
use vstd::utf8::{
    encode_utf8, encode_utf8_decode_utf8, is_ascii_chars, is_ascii_chars_encode_utf8, valid_utf8,
};

verus! {

/// The decimal digit `d` as a character.
pub open spec fn digit(d: int) -> char {
    "0123456789"@[d]
}

/// The shortest decimal numeral of `n`.
pub open spec fn decimal(n: nat) -> Seq<char>
    decreases n,
{
    if n < 10 {
        seq![digit(n as int)]
    } else {
        decimal(n / 10).push(digit(n as int % 10))
    }
}

/// The decimal numeral of `n`, with a leading minus sign where `n` is negative.
pub open spec fn signed_decimal(n: int) -> Seq<char> {
    if n < 0 {
        "-"@ + decimal((-n) as nat)
    } else {
        decimal(n as nat)
    }
}

/// Two lowercase hexadecimal digits per byte, high half first.
pub open spec fn hex(bytes: Seq<u8>) -> Seq<char> {
    Seq::new(
        2 * bytes.len(),
        |i: int|
            "0123456789abcdef"@[if i % 2 == 0 {
                bytes[i / 2] as int / 16
            } else {
                bytes[i / 2] as int % 16
            }],
    )
}

/// The characters of an optional text.
pub open spec fn optional_text(text: Option<String>) -> Option<Seq<char>> {
    match text {
        Some(text) => Some(text@),
        None => None,
    }
}

/// The characters of several texts.
pub open spec fn texts(list: Seq<String>) -> Seq<Seq<char>> {
    list.map_values(|text: String| text@)
}

/// `a` followed by `b`.
pub fn concat2(a: &str, b: &str) -> (r: String)
    ensures
        r@ == a@ + b@,
{
    String::from_str(a).concat(b)
}

/// `a`, `b` and `c`, one after the other.
pub fn concat3(a: &str, b: &str, c: &str) -> (r: String)
    ensures
        r@ == a@ + b@ + c@,
{
    concat2(a, b).concat(c)
}

/// `a`, `b`, `c` and `d`, one after the other.
pub fn concat4(a: &str, b: &str, c: &str, d: &str) -> (r: String)
    ensures
        r@ == a@ + b@ + c@ + d@,
{
    concat3(a, b, c).concat(d)
}

/// `a`, `b`, `c`, `d` and `e`, one after the other.
pub fn concat5(a: &str, b: &str, c: &str, d: &str, e: &str) -> (r: String)
    ensures
        r@ == a@ + b@ + c@ + d@ + e@,
{
    concat4(a, b, c, d).concat(e)
}

/// Renders `n` in decimal.
pub fn decimal_text(n: u64) -> (r: String)
    ensures
        r@ == decimal(n as nat),
    decreases n,
{
    proof {
        reveal_strlit("0123456789");
    }
    let d: usize = (n % 10) as usize;
    let last = "0123456789".substring_char(d, d + 1);
    assert(last@ =~= seq![digit(n as int % 10)]);
    if n < 10 {
        String::from_str(last)
    } else {
        let r = decimal_text(n / 10).concat(last);
        assert(r@ =~= decimal(n as nat));
        r
    }
}

/// Renders `n` in decimal, with its sign.
pub fn signed_decimal_text(n: i32) -> (r: String)
    ensures
        r@ == signed_decimal(n as int),
{
    if n < 0 {
        let digits = decimal_text((-(n as i64)) as u64);
        concat2("-", digits.as_str())
    } else {
        decimal_text(n as u64)
    }
}

/// Renders `bytes` as lowercase hexadecimal digits.
pub fn hex_encode(bytes: &[u8]) -> (r: String)
    ensures
        r@ == hex(bytes@),
{
    let mut r = String::new();
    let mut i: usize = 0;
    proof {
        reveal_strlit("0123456789abcdef");
    }
    while i < bytes.len()
        invariant
            i <= bytes@.len(),
            "0123456789abcdef"@.len() == 16,
            r@ == hex(bytes@.take(i as int)),
        decreases bytes@.len() - i,
    {
        let high: usize = (bytes[i] / 16) as usize;
        let low: usize = (bytes[i] % 16) as usize;
        let ghost before = r@;
        r.append("0123456789abcdef".substring_char(high, high + 1));
        r.append("0123456789abcdef".substring_char(low, low + 1));
        i += 1;
        assert(r@ =~= hex(bytes@.take(i as int)));
    }
    assert(bytes@.take(i as int) =~= bytes@);
    r
}

/// Each hexadecimal digit is one byte long in UTF-8.
pub proof fn hex_is_ascii(bytes: Seq<u8>)
    ensures
        is_ascii_chars(hex(bytes)),
        encode_utf8(hex(bytes)).len() == 2 * bytes.len(),
{
    reveal_strlit("0123456789abcdef");
    let digits = "0123456789abcdef"@;
    assert(forall|d: int| 0 <= d < 16 ==> '\0' <= #[trigger] digits[d] <= '\u{7f}');
    assert forall|i: int| 0 <= i < hex(bytes).len() implies '\0' <= #[trigger] hex(bytes)[i]
        <= '\u{7f}' by {
        let d = if i % 2 == 0 {
            bytes[i / 2] as int / 16
        } else {
            bytes[i / 2] as int % 16
        };
        assert(hex(bytes)[i] == digits[d]);
    }
    is_ascii_chars_encode_utf8(hex(bytes));
}

/// A path below a directory, as Unix joins the two: an absolute `name` stands alone, and a
/// slash separates the two where `dir` does not end in one.
pub open spec fn joined(dir: Seq<char>, name: Seq<char>) -> Seq<char> {
    if name.len() > 0 && name[0] == '/' {
        name
    } else if dir.len() == 0 || dir.last() == '/' {
        dir + name
    } else {
        dir + "/"@ + name
    }
}

/// Joins a directory and a name into a path.
pub fn join_path(dir: &str, name: &str) -> (r: String)
    ensures
        r@ == joined(dir@, name@),
{
    if name.unicode_len() > 0 && name.get_char(0) == '/' {
        return String::from_str(name);
    }
    let n: usize = dir.unicode_len();
    if n == 0 || dir.get_char(n - 1) == '/' {
        concat2(dir, name)
    } else {
        concat3(dir, "/", name)
    }
}

/// Whether a character is a decimal digit.
pub open spec fn is_digit(c: char) -> bool {
    '0' <= c <= '9'
}

/// The number that decimal digits spell.
pub open spec fn numeral_value(digits: Seq<char>) -> nat
    decreases digits.len(),
{
    if digits.len() == 0 {
        0
    } else {
        10 * numeral_value(digits.drop_last()) + (digits.last() as u32 - '0' as u32) as nat
    }
}

/// A numeral without the plus sign that it may start with.
pub open spec fn without_plus(text: Seq<char>) -> Seq<char> {
    if text.len() > 0 && text[0] == '+' {
        text.skip(1)
    } else {
        text
    }
}

/// The number up to `max` that a text spells: one or more decimal digits, after a plus sign or
/// not.
pub open spec fn parsed_number(text: Seq<char>, max: nat) -> Option<nat> {
    let digits = without_plus(text);
    if digits.len() > 0 && (forall|i: int| 0 <= i < digits.len() ==> is_digit(#[trigger] digits[i]))
        && numeral_value(digits) <= max {
        Some(numeral_value(digits))
    } else {
        None
    }
}

/// The value of a longer numeral is at least that of its beginning.
proof fn value_grows(digits: Seq<char>, n: int)
    requires
        0 <= n <= digits.len(),
        forall|i: int| 0 <= i < digits.len() ==> is_digit(#[trigger] digits[i]),
    ensures
        numeral_value(digits.take(n)) <= numeral_value(digits),
    decreases digits.len() - n,
{
    if n < digits.len() {
        value_grows(digits, n + 1);
        assert(digits.take(n + 1).drop_last() =~= digits.take(n));
    } else {
        assert(digits.take(n) =~= digits);
    }
}

/// A numeral is made of digits and spells its number.
pub proof fn decimals_spell_their_number(n: nat)
    ensures
        decimal(n).len() > 0,
        forall|i: int| 0 <= i < decimal(n).len() ==> is_digit(#[trigger] decimal(n)[i]),
        numeral_value(decimal(n)) == n,
    decreases n,
{
    reveal_strlit("0123456789");
    let d = n as int % 10;
    assert(is_digit(digit(d)) && digit(d) as u32 - '0' as u32 == d);
    if n >= 10 {
        decimals_spell_their_number(n / 10);
        assert(decimal(n).drop_last() =~= decimal(n / 10));
    } else {
        assert(decimal(n).drop_last() =~= Seq::<char>::empty());
        assert(numeral_value(decimal(n).drop_last()) == 0);
    }
}

/// A number is read back from its numeral.
pub proof fn decimals_are_read_back(n: nat, max: nat)
    requires
        n <= max,
    ensures
        parsed_number(decimal(n), max) == Some(n),
{
    decimals_spell_their_number(n);
    assert(is_digit(decimal(n)[0]));
}

/// Reads a number up to `max`.
pub fn parse_number(text: &str, max: u64) -> (r: Option<u64>)
    ensures
        match r {
            Some(n) => parsed_number(text@, max as nat) == Some(n as nat),
            None => parsed_number(text@, max as nat) is None,
        },
{
    let len: usize = text.unicode_len();
    let start: usize = if starts_with_char(text, '+') {
        1
    } else {
        0
    };
    let ghost digits = without_plus(text@);
    assert(digits =~= text@.skip(start as int));
    if start == len {
        return None;
    }
    let mut value: u64 = 0;
    let mut i: usize = start;
    assert(digits.take(0) =~= Seq::<char>::empty());
    while i < len
        invariant
            start <= i <= len == text@.len(),
            start < len,
            digits == text@.skip(start as int),
            digits == without_plus(text@),
            forall|j: int| 0 <= j < i - start ==> is_digit(#[trigger] digits[j]),
            value as nat == numeral_value(digits.take(i - start)),
            value <= max,
        decreases len - i,
    {
        let c = text.get_char(i);
        assert(digits[i - start] == c);
        if c < '0' || c > '9' {
            assert(!is_digit(digits[i - start]));
            return None;
        }
        let d: u64 = (c as u32 - '0' as u32) as u64;
        assert(digits.take(i - start + 1).drop_last() =~= digits.take(i - start));
        assert(numeral_value(digits.take(i - start + 1)) == 10 * value + d);
        if d > max || value > (max - d) / 10 {
            assert(10 * value + d > max);
            proof {
                if forall|j: int| 0 <= j < digits.len() ==> is_digit(#[trigger] digits[j]) {
                    value_grows(digits, i - start + 1);
                }
            }
            return None;
        }
        value = 10 * value + d;
        i += 1;
    }
    assert(digits.take(i - start) =~= digits);
    Some(value)
}

/// `std::str::from_utf8`: the text that bytes encode, where they are valid UTF-8.
#[verifier::external_body]
pub(crate) fn utf8_text<'a>(bytes: &'a [u8]) -> (r: Option<&'a str>)
    ensures
        match r {
            Some(text) => valid_utf8(bytes@) && encode_utf8(text@) == bytes@,
            None => !valid_utf8(bytes@),
        },
{
    std::str::from_utf8(bytes).ok()
}

/// Distinct texts have distinct UTF-8 encodings.
pub proof fn utf8_is_injective(a: Seq<char>, b: Seq<char>)
    requires
        encode_utf8(a) == encode_utf8(b),
    ensures
        a == b,
{
    encode_utf8_decode_utf8(a);
    encode_utf8_decode_utf8(b);
}

/// The encoding of a concatenation is the concatenation of the encodings.
pub proof fn utf8_of_concat(a: Seq<char>, b: Seq<char>)
    ensures
        encode_utf8(a + b) == encode_utf8(a) + encode_utf8(b),
    decreases a.len(),
{
    if a.len() == 0 {
        assert(a + b =~= b);
        assert(encode_utf8(a) + encode_utf8(b) =~= encode_utf8(b));
    } else {
        utf8_of_concat(a.drop_first(), b);
        assert((a + b).drop_first() =~= a.drop_first() + b);
        assert(encode_utf8(a + b) =~= encode_utf8(a) + encode_utf8(b));
    }
}

/// Whether two texts are the same.
pub fn same_text(a: &str, b: &str) -> (r: bool)
    ensures
        r == (a@ == b@),
{
    let r = same_bytes(a.as_bytes(), b.as_bytes());
    proof {
        if r {
            utf8_is_injective(a@, b@);
        }
    }
    r
}

/// Whether `text` starts with the character `c`.
pub fn starts_with_char(text: &str, c: char) -> (r: bool)
    ensures
        r == (text@.len() > 0 && text@[0] == c),
{
    text.unicode_len() > 0 && text.get_char(0) == c
}

} // verus!
