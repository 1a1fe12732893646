//! Dominant-color extraction over raw RGB pixel data, and the five-color
//! display palette derived from it.
use vstd::prelude::*;
use crate::color::{Rgb, pastel_rgb, lighter_rgb, darker_rgb};
use crate::session::App;

verus! {

/// Largest pixel buffer, in bytes, handed to the extractor: its per-channel
/// sums are `i32`s, which hold up to about 8.5 million sampled pixels.
pub const MAX_PIXEL_BYTES: usize = 600_000_000;

/// Sampling quality of the extractor, its coarsest: one pixel in thirty is read.
pub const QUALITY: u8 = 10;

/// Number of dominant colors asked of the extractor.
pub const MAX_COLORS: u8 = 5;

#[verifier::external_type_specification]
#[verifier::external_body]
pub struct ExThiefError(color_thief::Error);

/// The palette that color-thief's median cut finds in tightly packed RGB
/// pixels, most dominant first, or `None` where the cut fails.
pub uninterp spec fn thief_palette(pixels: Seq<u8>, quality: u8, max_colors: u8) -> Option<Seq<Rgb>>;

/// Why no display palette could be made.
#[derive(Clone, Copy, Debug, PartialEq, Eq, Structural)]
pub enum ExtractError {
    /// The path named no image that could be decoded.
    Decode,
    /// Fewer than three dominant colors could be extracted.
    Palette,
}

/// Relies on `color_thief::get_palette` over RGB pixels: a deterministic
/// median cut whose result depends on its arguments alone, truncated to at
/// most `max_colors` entries. It asserts `1 <= quality <= 10` and
/// `max_colors > 1`. It samples one pixel in `3 * quality` and sums each
/// channel's weighted samples (at most 252 each) in an `i32`, which stays in
/// range for up to `60_000_000 * quality` bytes.
#[verifier::external_body]
fn get_palette_rgb(pixels: &[u8], quality: u8, max_colors: u8) -> (r: Result<Vec<Rgb>, color_thief::Error>)
    requires
        1 <= quality <= 10,
        max_colors > 1,
        pixels@.len() <= 60_000_000 * quality,
    ensures
        r is Ok <==> thief_palette(pixels@, quality, max_colors) is Some,
        r is Ok ==> r->Ok_0@ == thief_palette(pixels@, quality, max_colors)->Some_0,
        r is Ok ==> r->Ok_0@.len() <= max_colors,
{
    color_thief::get_palette(pixels, color_thief::ColorFormat::Rgb, quality, max_colors)
        .map(|colors| colors.iter().map(|c| (c.r, c.g, c.b)).collect())
}

/// The three tone variations of one color: original, lighter, darker.
pub open spec fn variations_of(c: Rgb) -> Seq<Rgb> {
    seq![c, lighter_rgb(c), darker_rgb(c)]
}

/// The five display colors made from an extracted palette of at least three
/// colors: the lighter, original and darker tones of the dominant color, then
/// the two accents, each softened to a pastel.
pub open spec fn display_of(extracted: Seq<Rgb>) -> Seq<Rgb> {
    seq![
        pastel_rgb(lighter_rgb(extracted[0])),
        pastel_rgb(extracted[0]),
        pastel_rgb(darker_rgb(extracted[0])),
        pastel_rgb(extracted[1]),
        pastel_rgb(extracted[2]),
    ]
}

/// The display palette of an extracted palette; `Palette` where it holds
/// fewer than three colors.
fn pastel(c: Rgb) -> (r: Rgb)
    ensures
        r == pastel_rgb(c),
{
    App::to_pastel(c.0, c.1, c.2)
}

pub fn display_palette(extracted: &Vec<Rgb>) -> (r: Result<Vec<Rgb>, ExtractError>)
    ensures
        extracted@.len() < 3 ==> r == Err::<Vec<Rgb>, ExtractError>(ExtractError::Palette),
        extracted@.len() >= 3 ==> r is Ok && r->Ok_0@ == display_of(extracted@),
{
    if extracted.len() < 3 {
        return Err(ExtractError::Palette);
    }
    let main = extracted[0];
    let tones = App::get_color_variations(main.0, main.1, main.2);
    let mut out: Vec<Rgb> = Vec::new();
    out.push(pastel(tones[1]));
    out.push(pastel(tones[0]));
    out.push(pastel(tones[2]));
    out.push(pastel(extracted[1]));
    out.push(pastel(extracted[2]));
    assert(out@ =~= display_of(extracted@));
    Ok(out)
}

/// What extraction makes of RGB pixel data: the display palette of the
/// dominant colors, or why there is none.
pub open spec fn extraction_of(pixels: Seq<u8>) -> Result<Seq<Rgb>, ExtractError> {
    match thief_palette(pixels, QUALITY, MAX_COLORS) {
        None => Err(ExtractError::Palette),
        Some(p) => if p.len() < 3 {
            Err(ExtractError::Palette)
        } else {
            Ok(display_of(p))
        },
    }
}

/// The display palette of RGB pixel data: the dominant colors that
/// color-thief finds, turned into five pastel display colors.
pub fn palette_from_pixels(pixels: &[u8]) -> (r: Result<Vec<Rgb>, ExtractError>)
    requires
        pixels@.len() <= MAX_PIXEL_BYTES,
    ensures
        match extraction_of(pixels@) {
            Ok(d) => r is Ok && r->Ok_0@ == d,
            Err(e) => r == Err::<Vec<Rgb>, ExtractError>(e),
        },
{
    match get_palette_rgb(pixels, QUALITY, MAX_COLORS) {
        Ok(colors) => display_palette(&colors),
        Err(_) => Err(ExtractError::Palette),
    }
}

} // verus!
