//! Integer color arithmetic: pastel blending, tone variations and
//! hexadecimal rendering of 8-bit RGB colors.
use vstd::prelude::*;

verus! {

/// An 8-bit RGB color as (red, green, blue).
pub type Rgb = (u8, u8, u8);

/// One channel blended 70% toward itself and 30% toward white, truncated:
/// `trunc(c * 0.7 + 255 * 0.3)`, written over the integers as `(7c + 765) / 10`.
pub open spec fn pastel_of(c: u8) -> u8 {
    ((7 * c + 765) / 10) as u8
}

/// One channel scaled by 1.2, truncated, and clamped at 255.
pub open spec fn lighter_of(c: u8) -> u8 {
    if 12 * c / 10 > 255 {
        255u8
    } else {
        (12 * c / 10) as u8
    }
}

/// One channel scaled by 0.8 and truncated toward zero.
pub open spec fn darker_of(c: u8) -> u8 {
    (8 * c / 10) as u8
}

pub open spec fn pastel_rgb(c: Rgb) -> Rgb {
    (pastel_of(c.0), pastel_of(c.1), pastel_of(c.2))
}

pub open spec fn lighter_rgb(c: Rgb) -> Rgb {
    (lighter_of(c.0), lighter_of(c.1), lighter_of(c.2))
}

pub open spec fn darker_rgb(c: Rgb) -> Rgb {
    (darker_of(c.0), darker_of(c.1), darker_of(c.2))
}

/// The upper-case hexadecimal digit of a value below 16.
pub open spec fn hex_digit_of(n: int) -> char {
    if n == 0 { '0' }
    else if n == 1 { '1' }
    else if n == 2 { '2' }
    else if n == 3 { '3' }
    else if n == 4 { '4' }
    else if n == 5 { '5' }
    else if n == 6 { '6' }
    else if n == 7 { '7' }
    else if n == 8 { '8' }
    else if n == 9 { '9' }
    else if n == 10 { 'A' }
    else if n == 11 { 'B' }
    else if n == 12 { 'C' }
    else if n == 13 { 'D' }
    else if n == 14 { 'E' }
    else { 'F' }
}

/// `#RRGGBB`: upper-case hexadecimal, two digits per channel.
pub open spec fn hex_text(c: Rgb) -> Seq<char> {
    seq![
        '#',
        hex_digit_of(c.0 as int / 16), hex_digit_of(c.0 as int % 16),
        hex_digit_of(c.1 as int / 16), hex_digit_of(c.1 as int % 16),
        hex_digit_of(c.2 as int / 16), hex_digit_of(c.2 as int % 16),
    ]
}

pub fn pastel_channel(c: u8) -> (r: u8)
    ensures
        r == pastel_of(c),
{
    ((c as u32 * 7 + 765) / 10) as u8
}

pub fn lighter_channel(c: u8) -> (r: u8)
    ensures
        r == lighter_of(c),
{
    let scaled: u32 = c as u32 * 12 / 10;
    if scaled > 255 {
        255
    } else {
        scaled as u8
    }
}

pub fn darker_channel(c: u8) -> (r: u8)
    ensures
        r == darker_of(c),
{
    (c as u32 * 8 / 10) as u8
}

pub fn hex_digit(n: u8) -> (r: char)
    requires
        n < 16,
    ensures
        r == hex_digit_of(n as int),
{
    match n {
        0 => '0',
        1 => '1',
        2 => '2',
        3 => '3',
        4 => '4',
        5 => '5',
        6 => '6',
        7 => '7',
        8 => '8',
        9 => '9',
        10 => 'A',
        11 => 'B',
        12 => 'C',
        13 => 'D',
        14 => 'E',
        _ => 'F',
    }
}

/// Relies on `String::push`: appends one character at the end.
#[verifier::external_body]
pub(crate) fn push_char(s: &mut String, c: char)
    ensures
        final(s)@ == old(s)@.push(c),
{
    s.push(c)
}

/// Relies on `String::pop`: removes and returns the last character, or
/// returns `None` and leaves the string alone when it is empty.
#[verifier::external_body]
pub(crate) fn pop_char(s: &mut String) -> (r: Option<char>)
    ensures
        old(s)@.len() == 0 ==> r is None && final(s)@ == old(s)@,
        old(s)@.len() > 0 ==> r == Some(old(s)@.last()) && final(s)@ == old(s)@.drop_last(),
{
    s.pop()
}

/// The color as `#RRGGBB`, upper-case and zero-padded.
pub fn hex_code(c: Rgb) -> (r: String)
    ensures
        r@ == hex_text(c),
{
    let mut s = String::new();
    push_char(&mut s, '#');
    push_char(&mut s, hex_digit(c.0 / 16));
    push_char(&mut s, hex_digit(c.0 % 16));
    push_char(&mut s, hex_digit(c.1 / 16));
    push_char(&mut s, hex_digit(c.1 % 16));
    push_char(&mut s, hex_digit(c.2 / 16));
    push_char(&mut s, hex_digit(c.2 % 16));
    assert(s@ =~= hex_text(c));
    s
}

/// Pastel blending never darkens a channel, so a second application moves
/// each channel at least as far toward white as the first; black becomes
/// (76, 76, 76), white stays white, and the blend is not idempotent.
pub proof fn pastel_moves_toward_white(c: Rgb)
    ensures
        pastel_rgb(pastel_rgb(c)).0 >= pastel_rgb(c).0,
        pastel_rgb(pastel_rgb(c)).1 >= pastel_rgb(c).1,
        pastel_rgb(pastel_rgb(c)).2 >= pastel_rgb(c).2,
        pastel_rgb((0, 0, 0)) == (76u8, 76u8, 76u8),
        pastel_rgb((255, 255, 255)) == (255u8, 255u8, 255u8),
        pastel_rgb(pastel_rgb((0, 0, 0))) != pastel_rgb((0, 0, 0)),
{
}

/// The lighter variation never lowers a channel and the darker one never
/// raises it.
pub proof fn variations_bracket_original(c: Rgb)
    ensures
        lighter_rgb(c).0 >= c.0 && lighter_rgb(c).1 >= c.1 && lighter_rgb(c).2 >= c.2,
        darker_rgb(c).0 <= c.0 && darker_rgb(c).1 <= c.1 && darker_rgb(c).2 <= c.2,
{
}

} // verus!
