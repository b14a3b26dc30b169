//! Numbers as text: the hexadecimal forms in which addresses and registers
//! are shown.

use vstd::prelude::*;
use vstd::string::StringExecFns;

verus! {

/// The hexadecimal digit for `n`, with capital letters.
pub open spec fn upper_hex(n: int) -> char {
    if n == 0 {
        '0'
    } else if n == 1 {
        '1'
    } else if n == 2 {
        '2'
    } else if n == 3 {
        '3'
    } else if n == 4 {
        '4'
    } else if n == 5 {
        '5'
    } else if n == 6 {
        '6'
    } else if n == 7 {
        '7'
    } else if n == 8 {
        '8'
    } else if n == 9 {
        '9'
    } else if n == 10 {
        'A'
    } else if n == 11 {
        'B'
    } else if n == 12 {
        'C'
    } else if n == 13 {
        'D'
    } else if n == 14 {
        'E'
    } else {
        'F'
    }
}

/// The hexadecimal digit for `n`, with small letters.
pub open spec fn lower_hex(n: int) -> char {
    if n == 0 {
        '0'
    } else if n == 1 {
        '1'
    } else if n == 2 {
        '2'
    } else if n == 3 {
        '3'
    } else if n == 4 {
        '4'
    } else if n == 5 {
        '5'
    } else if n == 6 {
        '6'
    } else if n == 7 {
        '7'
    } else if n == 8 {
        '8'
    } else if n == 9 {
        '9'
    } else if n == 10 {
        'a'
    } else if n == 11 {
        'b'
    } else if n == 12 {
        'c'
    } else if n == 13 {
        'd'
    } else if n == 14 {
        'e'
    } else {
        'f'
    }
}

/// The hexadecimal digit for `n`, with capital letters.
pub fn upper_hex_digit(n: u8) -> (digit: &'static str)
    requires
        n < 16,
    ensures
        digit@ == seq![upper_hex(n as int)],
{
    proof {
        reveal_strlit("0");
        reveal_strlit("1");
        reveal_strlit("2");
        reveal_strlit("3");
        reveal_strlit("4");
        reveal_strlit("5");
        reveal_strlit("6");
        reveal_strlit("7");
        reveal_strlit("8");
        reveal_strlit("9");
        reveal_strlit("A");
        reveal_strlit("B");
        reveal_strlit("C");
        reveal_strlit("D");
        reveal_strlit("E");
        reveal_strlit("F");
    }
    let digit = match n {
        0 => "0",
        1 => "1",
        2 => "2",
        3 => "3",
        4 => "4",
        5 => "5",
        6 => "6",
        7 => "7",
        8 => "8",
        9 => "9",
        10 => "A",
        11 => "B",
        12 => "C",
        13 => "D",
        14 => "E",
        _ => "F",
    };
    assert(digit@ =~= seq![upper_hex(n as int)]);
    digit
}

/// The hexadecimal digit for `n`, with small letters.
pub fn lower_hex_digit(n: u8) -> (digit: &'static str)
    requires
        n < 16,
    ensures
        digit@ == seq![lower_hex(n as int)],
{
    proof {
        reveal_strlit("0");
        reveal_strlit("1");
        reveal_strlit("2");
        reveal_strlit("3");
        reveal_strlit("4");
        reveal_strlit("5");
        reveal_strlit("6");
        reveal_strlit("7");
        reveal_strlit("8");
        reveal_strlit("9");
        reveal_strlit("a");
        reveal_strlit("b");
        reveal_strlit("c");
        reveal_strlit("d");
        reveal_strlit("e");
        reveal_strlit("f");
    }
    let digit = match n {
        0 => "0",
        1 => "1",
        2 => "2",
        3 => "3",
        4 => "4",
        5 => "5",
        6 => "6",
        7 => "7",
        8 => "8",
        9 => "9",
        10 => "a",
        11 => "b",
        12 => "c",
        13 => "d",
        14 => "e",
        _ => "f",
    };
    assert(digit@ =~= seq![lower_hex(n as int)]);
    digit
}

/// The 16-bit number `value` as text: `0x` and four hexadecimal digits with
/// capital letters.
pub open spec fn word_text(value: u16) -> Seq<char> {
    seq![
        '0',
        'x',
        upper_hex(value as int / 4096),
        upper_hex((value as int / 256) % 16),
        upper_hex((value as int / 16) % 16),
        upper_hex(value as int % 16),
    ]
}

/// The 8-bit number `value` as text: `0x` and one or two hexadecimal digits
/// with small letters, without a leading zero.
pub open spec fn byte_text(value: u8) -> Seq<char> {
    if value < 16 {
        seq!['0', 'x', lower_hex(value as int)]
    } else {
        seq!['0', 'x', lower_hex(value as int / 16), lower_hex(value as int % 16)]
    }
}

/// Write a 16-bit number at the end of `text`: `0x` and four hexadecimal
/// digits.
pub fn push_word(text: &mut String, value: u16)
    ensures
        final(text)@ == old(text)@ + word_text(value),
{
    proof {
        reveal_strlit("0x");
    }
    text.append("0x");
    text.append(upper_hex_digit((value / 4096) as u8));
    text.append(upper_hex_digit(((value / 256) % 16) as u8));
    text.append(upper_hex_digit(((value / 16) % 16) as u8));
    text.append(upper_hex_digit((value % 16) as u8));
    assert(text@ =~= old(text)@ + word_text(value));
}

/// Write an 8-bit number at the end of `text`: `0x` and one or two
/// hexadecimal digits.
pub fn push_byte(text: &mut String, value: u8)
    ensures
        final(text)@ == old(text)@ + byte_text(value),
{
    proof {
        reveal_strlit("0x");
    }
    text.append("0x");
    if value >= 16 {
        text.append(lower_hex_digit(value / 16));
    }
    text.append(lower_hex_digit(value % 16));
    assert(text@ =~= old(text)@ + byte_text(value));
}

} // verus!
