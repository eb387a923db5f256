//! Rendering of numbers as text: decimal, one fixed decimal place, hexadecimal.
//!
//! Every executable function appends to a `String` and states the appended
//! characters through a specification function of this module.

use vstd::prelude::*;
use vstd::string::StringExecFns;

verus! {

/// The character of a single digit; digits from ten to fifteen are lower-case letters.
pub open spec fn digit(d: int) -> char {
    if d == 0 {
        '0'
    } else if d == 1 {
        '1'
    } else if d == 2 {
        '2'
    } else if d == 3 {
        '3'
    } else if d == 4 {
        '4'
    } else if d == 5 {
        '5'
    } else if d == 6 {
        '6'
    } else if d == 7 {
        '7'
    } else if d == 8 {
        '8'
    } else if d == 9 {
        '9'
    } else if d == 10 {
        'a'
    } else if d == 11 {
        'b'
    } else if d == 12 {
        'c'
    } else if d == 13 {
        'd'
    } else if d == 14 {
        'e'
    } else {
        'f'
    }
}

/// As `digit`, with upper-case letters for ten to fifteen.
pub open spec fn digit_upper(d: int) -> char {
    if d == 10 {
        'A'
    } else if d == 11 {
        'B'
    } else if d == 12 {
        'C'
    } else if d == 13 {
        'D'
    } else if d == 14 {
        'E'
    } else if d == 15 {
        'F'
    } else {
        digit(d)
    }
}

/// The decimal numeral of `n`, without leading zeros.
pub open spec fn decimal(n: nat) -> Seq<char>
    decreases n,
{
    if n < 10 {
        seq![digit(n as int)]
    } else {
        decimal(n / 10).push(digit((n % 10) as int))
    }
}

/// A number of tenths written with one decimal place, such as `-11.2`.
pub open spec fn one_decimal_place(tenths: int) -> Seq<char> {
    if tenths < 0 {
        seq!['-'] + decimal(((-tenths) / 10) as nat) + seq!['.', digit((-tenths) % 10)]
    } else {
        decimal((tenths / 10) as nat) + seq!['.', digit(tenths % 10)]
    }
}

/// A byte as `0x` and two lower-case hexadecimal digits.
pub open spec fn hex_byte(value: int) -> Seq<char> {
    seq!['0', 'x', digit(value / 16), digit(value % 16)]
}

/// A word as `0x` and four upper-case hexadecimal digits.
pub open spec fn hex_word_upper(value: int) -> Seq<char> {
    seq![
        '0',
        'x',
        digit_upper(value / 4096),
        digit_upper(value / 256 % 16),
        digit_upper(value / 16 % 16),
        digit_upper(value % 16),
    ]
}

/// The one-character text of a digit below sixteen, in lower case.
fn digit_text(d: u8) -> (s: &'static str)
    requires
        d < 16,
    ensures
        s@ == seq![digit(d as int)],
{
    let s = match d {
        0 => "0",
        1 => "1",
        2 => "2",
        3 => "3",
        4 => "4",
        5 => "5",
        6 => "6",
        7 => "7",
        8 => "8",
        9 => "9",
        10 => "a",
        11 => "b",
        12 => "c",
        13 => "d",
        14 => "e",
        _ => "f",
    };
    proof {
        reveal_strlit("0");
        reveal_strlit("1");
        reveal_strlit("2");
        reveal_strlit("3");
        reveal_strlit("4");
        reveal_strlit("5");
        reveal_strlit("6");
        reveal_strlit("7");
        reveal_strlit("8");
        reveal_strlit("9");
        reveal_strlit("a");
        reveal_strlit("b");
        reveal_strlit("c");
        reveal_strlit("d");
        reveal_strlit("e");
        reveal_strlit("f");
    }
    s
}

/// The one-character text of a digit below sixteen, in upper case.
fn digit_text_upper(d: u8) -> (s: &'static str)
    requires
        d < 16,
    ensures
        s@ == seq![digit_upper(d as int)],
{
    if d < 10 {
        digit_text(d)
    } else {
        let s = match d {
            10 => "A",
            11 => "B",
            12 => "C",
            13 => "D",
            14 => "E",
            _ => "F",
        };
        proof {
            reveal_strlit("A");
            reveal_strlit("B");
            reveal_strlit("C");
            reveal_strlit("D");
            reveal_strlit("E");
            reveal_strlit("F");
        }
        s
    }
}

/// Appends the decimal numeral of `n`.
pub fn append_decimal(out: &mut String, n: u64)
    ensures
        final(out)@ == old(out)@ + decimal(n as nat),
    decreases n,
{
    if n >= 10 {
        append_decimal(out, n / 10);
    }
    let last: u8 = (n % 10) as u8;
    out.append(digit_text(last));
}

/// Appends `tenths` with one decimal place.
pub fn append_one_decimal_place(out: &mut String, tenths: i32)
    ensures
        final(out)@ == old(out)@ + one_decimal_place(tenths as int),
{
    let magnitude: u64 = if tenths < 0 {
        out.append("-");
        (-(tenths as i64)) as u64
    } else {
        tenths as u64
    };
    append_decimal(out, magnitude / 10);
    out.append(".");
    out.append(digit_text((magnitude % 10) as u8));
    proof {
        reveal_strlit("-");
        reveal_strlit(".");
    }
}

/// Appends a byte as `0x` and two lower-case hexadecimal digits.
pub fn append_hex_byte(out: &mut String, value: u8)
    ensures
        final(out)@ == old(out)@ + hex_byte(value as int),
{
    out.append("0x");
    out.append(digit_text(value / 16));
    out.append(digit_text(value % 16));
    proof {
        reveal_strlit("0x");
    }
}

/// Appends a word as `0x` and four upper-case hexadecimal digits.
pub fn append_hex_word_upper(out: &mut String, value: u16)
    ensures
        final(out)@ == old(out)@ + hex_word_upper(value as int),
{
    out.append("0x");
    out.append(digit_text_upper((value / 4096) as u8));
    out.append(digit_text_upper((value / 256 % 16) as u8));
    out.append(digit_text_upper((value / 16 % 16) as u8));
    out.append(digit_text_upper((value % 16) as u8));
    proof {
        reveal_strlit("0x");
    }
}

} // verus!
