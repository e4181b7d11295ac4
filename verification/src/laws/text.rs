//! What numerals, hexadecimal digits and paths look like, character by character.
use crate::text::{
    decimal, digit, hex, is_digit, joined, numeral_value, optional_text, parsed_number,
    signed_decimal, texts,
};
use vstd::prelude::*;

verus! {

/// The ten digits are the code points from 48 on, and no other character is a digit.
pub proof fn digits_are_ascii(d: int, c: char)
    ensures
        0 <= d < 10 ==> digit(d) as int == 48 + d,
        is_digit(c) <==> 48 <= c as int <= 57,
{
    reveal_strlit("0123456789");
}

/// A numeral of two digits or more is that of a tenth of the number and one more digit, the
/// remainder; a numeral never starts with a zero but for zero itself.
pub proof fn numerals_are_canonical(n: nat)
    ensures
        decimal(n).len() >= 1,
        n < 10 ==> decimal(n).len() == 1,
        n >= 10 ==> decimal(n).drop_last() == decimal(n / 10),
        decimal(n).last() as int == 48 + n % 10,
        n > 0 ==> decimal(n)[0] as int != 48,
    decreases n,
{
    digits_are_ascii(n as int % 10, '0');
    if n >= 10 {
        numerals_are_canonical(n / 10);
        assert(decimal(n).drop_last() =~= decimal(n / 10));
        assert(decimal(n)[0] == decimal(n / 10)[0]);
    }
}

/// Each further digit of a numeral multiplies its value by ten and adds the digit's own.
pub proof fn digits_count_by_tens(digits: Seq<char>, c: char)
    requires
        48 <= c as int <= 57,
    ensures
        numeral_value(Seq::empty()) == 0,
        numeral_value(digits.push(c)) == 10 * numeral_value(digits) + (c as int - 48),
{
    assert(digits.push(c).drop_last() =~= digits);
}

/// A number is read from one or more digits whose value is within the bound, and from nothing
/// else; one plus sign before them changes nothing.
pub proof fn numbers_are_read_from_digits(text: Seq<char>, max: nat)
    ensures
        (text.len() == 0 || text[0] as int != 43) ==> parsed_number(text, max) == (if text.len() > 0
            && (forall|i: int| 0 <= i < text.len() ==> 48 <= (#[trigger] text[i]) as int <= 57)
            && numeral_value(text) <= max {
            Some(numeral_value(text))
        } else {
            None
        }),
        parsed_number(seq!['+'] + text, max) == (if text.len() > 0 && text[0] as int == 43 {
            None
        } else {
            parsed_number(text, max)
        }),
{
    assert((seq!['+'] + text).skip(1) =~= text);
    assert((seq!['+'] + text)[0] == '+');
    assert forall|i: int| 0 <= i < text.len() implies is_digit(#[trigger] text[i]) == (48
        <= text[i] as int <= 57) by {}
}

/// The numeral of a negative number is a minus sign before that of its opposite; no other numeral
/// starts with one.
pub proof fn only_negative_numerals_have_a_sign(n: int)
    ensures
        n < 0 ==> signed_decimal(n) == seq!['-'] + decimal((-n) as nat),
        n >= 0 ==> signed_decimal(n) == decimal(n as nat) && signed_decimal(n)[0] != '-',
{
    reveal_strlit("-");
    assert("-"@ =~= seq!['-']);
    if n >= 0 {
        crate::text::decimals_spell_their_number(n as nat);
        assert(is_digit(decimal(n as nat)[0]));
    }
}

/// The value of a lowercase hexadecimal digit.
pub open spec fn nibble(c: char) -> int {
    if 48 <= c as int <= 57 {
        c as int - 48
    } else if 97 <= c as int <= 102 {
        c as int - 87
    } else {
        -1
    }
}

/// Each byte is written as two lowercase hexadecimal digits that spell it, high half first.
pub proof fn hex_digits_spell_the_bytes(bytes: Seq<u8>)
    ensures
        hex(bytes).len() == 2 * bytes.len(),
        forall|i: int|
            0 <= i < bytes.len() ==> {
                &&& nibble(#[trigger] hex(bytes)[2 * i]) == bytes[i] as int / 16
                &&& nibble(hex(bytes)[2 * i + 1]) == bytes[i] as int % 16
            },
{
    reveal_strlit("0123456789abcdef");
    let digits = "0123456789abcdef"@;
    assert(forall|d: int| 0 <= d < 16 ==> nibble(#[trigger] digits[d]) == d);
    assert forall|i: int| 0 <= i < bytes.len() implies {
        &&& nibble(#[trigger] hex(bytes)[2 * i]) == bytes[i] as int / 16
        &&& nibble(hex(bytes)[2 * i + 1]) == bytes[i] as int % 16
    } by {
        assert((2 * i) % 2 == 0 && (2 * i) / 2 == i);
        assert((2 * i + 1) % 2 == 1 && (2 * i + 1) / 2 == i);
        assert(hex(bytes)[2 * i] == digits[bytes[i] as int / 16]);
        assert(hex(bytes)[2 * i + 1] == digits[bytes[i] as int % 16]);
    }
}

/// Different bytes are written differently.
pub proof fn hex_is_injective(a: Seq<u8>, b: Seq<u8>)
    requires
        hex(a) == hex(b),
    ensures
        a == b,
{
    hex_digits_spell_the_bytes(a);
    hex_digits_spell_the_bytes(b);
    assert forall|i: int| 0 <= i < a.len() implies a[i] == b[i] by {
        let (x, y) = (a[i] as int, b[i] as int);
        assert(nibble(hex(a)[2 * i]) == x / 16 && nibble(hex(b)[2 * i]) == y / 16);
        assert(nibble(hex(a)[2 * i + 1]) == x % 16 && nibble(hex(b)[2 * i + 1]) == y % 16);
        assert(x == 16 * (x / 16) + x % 16 && y == 16 * (y / 16) + y % 16);
    }
    assert(a =~= b);
}

/// A joined path is the name alone where the name is absolute; else it is the directory and the
/// name with exactly one slash more between them than the directory brings, and none after an empty
/// directory.
pub proof fn joined_paths_keep_both_parts(dir: Seq<char>, name: Seq<char>)
    ensures
        name.len() > 0 && name[0] as int == 47 ==> joined(dir, name) == name,
        !(name.len() > 0 && name[0] as int == 47) ==> joined(dir, name) == (if dir.len() == 0
            || dir[dir.len() - 1] as int == 47 {
            dir + name
        } else {
            dir.push('/') + name
        }),
{
    reveal_strlit("/");
    assert("/"@ =~= seq!['/']);
    assert(dir + "/"@ =~= dir.push('/'));
}

/// The characters of optional and of several texts are those of each text.
pub proof fn texts_are_seen_whole(text: String, list: Seq<String>)
    ensures
        optional_text(Some(text)) == Some(text@),
        optional_text(None) is None,
        texts(list).len() == list.len(),
        forall|i: int| 0 <= i < list.len() ==> #[trigger] texts(list)[i] == list[i]@,
{
}

} // verus!
