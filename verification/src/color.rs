//! Dot colours: an RGB triple, made from random draws and rendered as
//! hexadecimal text.

use crate::draw::{fraction_of, scale};
use crate::text::{digit_value, hex_digits, lemma_hex_digits_value, push_hex};
use vstd::prelude::*;

verus! {

/// An RGB colour.
#[derive(Clone, Copy, Debug, PartialEq, Eq, Structural)]
pub struct Color {
    pub r: u8,
    pub g: u8,
    pub b: u8,
}

/// The colour channel that a draw gives: the fraction `draw / 2^32` of 255,
/// rounded down.
pub open spec fn channel(draw: u32) -> int {
    fraction_of(draw, 255)
}

/// The text form of a colour: `#`, then the two hexadecimal digits of each
/// channel, red first.
pub open spec fn hex_text(c: Color) -> Seq<char> {
    seq!['#'] + hex_digits(c.r) + hex_digits(c.g) + hex_digits(c.b)
}

/// The colour that three draws give, one per channel.
pub open spec fn mixed(red: u32, green: u32, blue: u32) -> Color {
    Color { r: channel(red) as u8, g: channel(green) as u8, b: channel(blue) as u8 }
}

fn channel_of(draw: u32) -> (c: u8)
    ensures
        c == channel(draw),
        c < 255,
{
    scale(draw, 255) as u8
}

/// The colour that three draws give, one per channel. No channel reaches
/// 255, because no draw stands for the whole unit interval.
pub fn random_color(red: u32, green: u32, blue: u32) -> (c: Color)
    ensures
        c == mixed(red, green, blue),
        c.r == channel(red),
        c.g == channel(green),
        c.b == channel(blue),
        c.r < 255 && c.g < 255 && c.b < 255,
{
    Color { r: channel_of(red), g: channel_of(green), b: channel_of(blue) }
}

impl Color {
    /// The text form of this colour.
    pub fn to_hex(&self) -> (text: String)
        ensures
            text@ == hex_text(*self),
    {
        proof {
            reveal_strlit("#");
        }
        let mut text: String = String::from_str("#");
        push_hex(&mut text, self.r);
        push_hex(&mut text, self.g);
        push_hex(&mut text, self.b);
        assert(text@ =~= hex_text(*self));
        text
    }
}

/// The text form is canonical: it has seven characters, and the channels
/// can be read back from it, so two colours with the same text are the same
/// colour.
pub proof fn law_hex_text_is_canonical(c: Color, d: Color)
    ensures
        hex_text(c).len() == 7,
        hex_text(c)[0] == '#',
        16 * digit_value(hex_text(c)[1]) + digit_value(hex_text(c)[2]) == c.r,
        16 * digit_value(hex_text(c)[3]) + digit_value(hex_text(c)[4]) == c.g,
        16 * digit_value(hex_text(c)[5]) + digit_value(hex_text(c)[6]) == c.b,
        hex_text(c) == hex_text(d) ==> c == d,
{
    lemma_hex_text_reads_back(c);
    lemma_hex_text_reads_back(d);
}

proof fn lemma_hex_text_reads_back(c: Color)
    ensures
        hex_text(c).len() == 7,
        hex_text(c)[0] == '#',
        16 * digit_value(hex_text(c)[1]) + digit_value(hex_text(c)[2]) == c.r,
        16 * digit_value(hex_text(c)[3]) + digit_value(hex_text(c)[4]) == c.g,
        16 * digit_value(hex_text(c)[5]) + digit_value(hex_text(c)[6]) == c.b,
{
    lemma_hex_digits_value(c.r);
    lemma_hex_digits_value(c.g);
    lemma_hex_digits_value(c.b);
    let text = hex_text(c);
    assert(text[1] == hex_digits(c.r)[0] && text[2] == hex_digits(c.r)[1]);
    assert(text[3] == hex_digits(c.g)[0] && text[4] == hex_digits(c.g)[1]);
    assert(text[5] == hex_digits(c.b)[0] && text[6] == hex_digits(c.b)[1]);
}

impl From<(u8, u8, u8)> for Color {
    fn from(rgb: (u8, u8, u8)) -> (c: Self) {
        Self { r: rgb.0, g: rgb.1, b: rgb.2 }
    }
}

impl vstd::std_specs::convert::FromSpecImpl<(u8, u8, u8)> for Color {
    open spec fn obeys_from_spec() -> bool {
        true
    }

    open spec fn from_spec(rgb: (u8, u8, u8)) -> Self {
        Self { r: rgb.0, g: rgb.1, b: rgb.2 }
    }
}

} // verus!
