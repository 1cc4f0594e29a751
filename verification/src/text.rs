//! Numbers as text: the digits of a byte in base ten and in base sixteen.

use vstd::prelude::*;

verus! {

/// The sixteen digits, lower case; the first ten are the decimal digits.
pub open spec fn digit_alphabet() -> Seq<char> {
    seq!['0', '1', '2', '3', '4', '5', '6', '7', '8', '9', 'a', 'b', 'c', 'd', 'e', 'f']
}

/// `n` in hexadecimal, two digits.
pub open spec fn hex_digits(n: u8) -> Seq<char> {
    seq![digit_alphabet()[n as int / 16], digit_alphabet()[n as int % 16]]
}

/// The number that a digit stands for; sixteen for any other character.
pub open spec fn digit_value(c: char) -> int {
    if c == '0' {
        0
    } else if c == '1' {
        1
    } else if c == '2' {
        2
    } else if c == '3' {
        3
    } else if c == '4' {
        4
    } else if c == '5' {
        5
    } else if c == '6' {
        6
    } else if c == '7' {
        7
    } else if c == '8' {
        8
    } else if c == '9' {
        9
    } else if c == 'a' {
        10
    } else if c == 'b' {
        11
    } else if c == 'c' {
        12
    } else if c == 'd' {
        13
    } else if c == 'e' {
        14
    } else if c == 'f' {
        15
    } else {
        16
    }
}

/// Every digit stands for its place in the alphabet.
pub proof fn lemma_digit_value(n: int)
    requires
        0 <= n < 16,
    ensures
        digit_value(digit_alphabet()[n]) == n,
{
}

/// The two hexadecimal digits of a byte give the byte back.
pub proof fn lemma_hex_digits_value(n: u8)
    ensures
        hex_digits(n).len() == 2,
        16 * digit_value(hex_digits(n)[0]) + digit_value(hex_digits(n)[1]) == n,
{
    lemma_digit_value(n as int / 16);
    lemma_digit_value(n as int % 16);
}

/// `n` in decimal without padding.
pub open spec fn decimal_digits(n: u8) -> Seq<char> {
    if n < 10 {
        seq![digit_alphabet()[n as int]]
    } else if n < 100 {
        seq![digit_alphabet()[n as int / 10], digit_alphabet()[n as int % 10]]
    } else {
        seq![
            digit_alphabet()[n as int / 100],
            digit_alphabet()[n as int / 10 % 10],
            digit_alphabet()[n as int % 10],
        ]
    }
}

/// The digit `n` as text.
pub fn digit(n: u8) -> (s: &'static str)
    requires
        n < 16,
    ensures
        s@ == seq![digit_alphabet()[n as int]],
{
    proof {
        reveal_strlit("0");
        reveal_strlit("1");
        reveal_strlit("2");
        reveal_strlit("3");
        reveal_strlit("4");
        reveal_strlit("5");
        reveal_strlit("6");
        reveal_strlit("7");
        reveal_strlit("8");
        reveal_strlit("9");
        reveal_strlit("a");
        reveal_strlit("b");
        reveal_strlit("c");
        reveal_strlit("d");
        reveal_strlit("e");
        reveal_strlit("f");
    }
    let s: &'static str = match n {
        0 => "0",
        1 => "1",
        2 => "2",
        3 => "3",
        4 => "4",
        5 => "5",
        6 => "6",
        7 => "7",
        8 => "8",
        9 => "9",
        10 => "a",
        11 => "b",
        12 => "c",
        13 => "d",
        14 => "e",
        _ => "f",
    };
    assert(s@ =~= seq![digit_alphabet()[n as int]]);
    s
}

/// Appends the two hexadecimal digits of `n` to `text`.
pub fn push_hex(text: &mut String, n: u8)
    ensures
        final(text)@ == old(text)@ + hex_digits(n),
{
    text.append(digit(n / 16));
    text.append(digit(n % 16));
    assert(text@ =~= old(text)@ + hex_digits(n));
}

/// Appends `n` in decimal to `text`.
pub fn push_decimal(text: &mut String, n: u8)
    ensures
        final(text)@ == old(text)@ + decimal_digits(n),
{
    if n >= 100 {
        text.append(digit(n / 100));
    }
    if n >= 10 {
        text.append(digit(n / 10 % 10));
    }
    text.append(digit(n % 10));
    assert(text@ =~= old(text)@ + decimal_digits(n));
}

} // verus!
