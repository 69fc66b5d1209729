use vstd::prelude::*;

use embedded_graphics::coord::Coord;
use embedded_graphics::fonts::{Font as _, Font12x16, Font6x12, Font6x8, Font8x16};
use embedded_graphics::pixelcolor::PixelColorU8;
use embedded_graphics::transform::Transform;

use crate::font::{spec_glyph_height, spec_glyph_width, Font};
use crate::validate::{WriteCommand, MAX_TEXT_LEN, MAX_X, MAX_Y};

verus! {

/// The pixels (column, row, colour) that `Font6x8` yields for a text at an origin.
pub uninterp spec fn raster_6x8(text: Seq<char>, x: i32, y: i32) -> Seq<(u32, u32, u8)>;

/// The pixels (column, row, colour) that `Font6x12` yields for a text at an origin.
pub uninterp spec fn raster_6x12(text: Seq<char>, x: i32, y: i32) -> Seq<(u32, u32, u8)>;

/// The pixels (column, row, colour) that `Font8x16` yields for a text at an origin.
pub uninterp spec fn raster_8x16(text: Seq<char>, x: i32, y: i32) -> Seq<(u32, u32, u8)>;

/// The pixels (column, row, colour) that `Font12x16` yields for a text at an origin.
pub uninterp spec fn raster_12x16(text: Seq<char>, x: i32, y: i32) -> Seq<(u32, u32, u8)>;

/// An origin and a text that the glyph iterators handle without overflow and
/// without dropping a pixel off the top or left edge.
pub open spec fn drawable(text: Seq<char>, x: i32, y: i32) -> bool {
    &&& 0 <= x <= MAX_X
    &&& 0 <= y <= MAX_Y
    &&& text.len() <= MAX_TEXT_LEN
}

/// Relies on embedded_graphics 0.4's `Font6x8::render_str`, `translate` and its
/// pixel iterator: the pixels depend on the text and the origin alone, and with
/// an origin that is not negative every cell of each 6x8 glyph is yielded once.
#[verifier::external_body]
fn render_6x8(text: &str, x: i32, y: i32) -> (r: Vec<(u32, u32, u8)>)
    requires
        drawable(text@, x, y),
    ensures
        r@ == raster_6x8(text@, x, y),
        r@.len() == text@.len() * 48,
{
    let glyphs: Font6x8<PixelColorU8> = Font6x8::render_str(text).translate(Coord::new(x, y));
    (&glyphs).into_iter().map(|p| ((p.0).0, (p.0).1, (p.1).0)).collect()
}

/// Relies on embedded_graphics 0.4's `Font6x12::render_str`, `translate` and its
/// pixel iterator: the pixels depend on the text and the origin alone, and with
/// an origin that is not negative every cell of each 6x12 glyph is yielded once.
#[verifier::external_body]
fn render_6x12(text: &str, x: i32, y: i32) -> (r: Vec<(u32, u32, u8)>)
    requires
        drawable(text@, x, y),
    ensures
        r@ == raster_6x12(text@, x, y),
        r@.len() == text@.len() * 72,
{
    let glyphs: Font6x12<PixelColorU8> = Font6x12::render_str(text).translate(Coord::new(x, y));
    (&glyphs).into_iter().map(|p| ((p.0).0, (p.0).1, (p.1).0)).collect()
}

/// Relies on embedded_graphics 0.4's `Font8x16::render_str`, `translate` and its
/// pixel iterator: the pixels depend on the text and the origin alone, and with
/// an origin that is not negative every cell of each 8x16 glyph is yielded once.
#[verifier::external_body]
fn render_8x16(text: &str, x: i32, y: i32) -> (r: Vec<(u32, u32, u8)>)
    requires
        drawable(text@, x, y),
    ensures
        r@ == raster_8x16(text@, x, y),
        r@.len() == text@.len() * 128,
{
    let glyphs: Font8x16<PixelColorU8> = Font8x16::render_str(text).translate(Coord::new(x, y));
    (&glyphs).into_iter().map(|p| ((p.0).0, (p.0).1, (p.1).0)).collect()
}

/// Relies on embedded_graphics 0.4's `Font12x16::render_str`, `translate` and its
/// pixel iterator: the pixels depend on the text and the origin alone, and with
/// an origin that is not negative every cell of each 12x16 glyph is yielded once.
#[verifier::external_body]
fn render_12x16(text: &str, x: i32, y: i32) -> (r: Vec<(u32, u32, u8)>)
    requires
        drawable(text@, x, y),
    ensures
        r@ == raster_12x16(text@, x, y),
        r@.len() == text@.len() * 192,
{
    let glyphs: Font12x16<PixelColorU8> = Font12x16::render_str(text).translate(
        Coord::new(x, y),
    );
    (&glyphs).into_iter().map(|p| ((p.0).0, (p.0).1, (p.1).0)).collect()
}

/// The pixels of a text in a font, from an origin.
pub open spec fn spec_raster(font: Font, text: Seq<char>, x: i32, y: i32) -> Seq<(u32, u32, u8)> {
    match font {
        Font::Small6x8 => raster_6x8(text, x, y),
        Font::Medium6x12 => raster_6x12(text, x, y),
        Font::Large8x16 => raster_8x16(text, x, y),
        Font::XLarge12x16 => raster_12x16(text, x, y),
    }
}

/// Turns a validated command into the pixels that the panel is to be given:
/// one glyph of the command's font per character, placed from its origin.
pub fn rasterize(cmd: &WriteCommand) -> (r: Vec<(u32, u32, u8)>)
    requires
        cmd.wf(),
    ensures
        r@ == spec_raster(cmd.font, cmd.text@, cmd.x, cmd.y),
        r@.len() == cmd.text@.len() * spec_glyph_width(cmd.font) * spec_glyph_height(cmd.font),
{
    let text = cmd.text.as_str();
    match cmd.font {
        Font::Small6x8 => render_6x8(text, cmd.x, cmd.y),
        Font::Medium6x12 => render_6x12(text, cmd.x, cmd.y),
        Font::Large8x16 => render_8x16(text, cmd.x, cmd.y),
        Font::XLarge12x16 => render_12x16(text, cmd.x, cmd.y),
    }
}

} // verus!
