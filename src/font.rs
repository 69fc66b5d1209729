use vstd::prelude::*;

verus! {

/// The fixed set of glyph sizes that the panel can render.
#[derive(Clone, Copy, Debug, PartialEq, Eq, Structural)]
pub enum Font {
    Small6x8,
    Medium6x12,
    Large8x16,
    XLarge12x16,
}

/// The font that a request names, if it names one of the four accepted sizes.
pub open spec fn font_named(name: Seq<char>) -> Option<Font> {
    if name == seq!['6', 'x', '8'] {
        Some(Font::Small6x8)
    } else if name == seq!['6', 'x', '1', '2'] {
        Some(Font::Medium6x12)
    } else if name == seq!['8', 'x', '1', '6'] {
        Some(Font::Large8x16)
    } else if name == seq!['1', '2', 'x', '1', '6'] {
        Some(Font::XLarge12x16)
    } else {
        None
    }
}

/// Width of one glyph in pixels.
pub open spec fn spec_glyph_width(f: Font) -> u32 {
    match f {
        Font::Small6x8 => 6,
        Font::Medium6x12 => 6,
        Font::Large8x16 => 8,
        Font::XLarge12x16 => 12,
    }
}

/// Height of one glyph in pixels.
pub open spec fn spec_glyph_height(f: Font) -> u32 {
    match f {
        Font::Small6x8 => 8,
        Font::Medium6x12 => 12,
        Font::Large8x16 => 16,
        Font::XLarge12x16 => 16,
    }
}

/// Whether the characters of `s` are exactly `pattern`.
fn chars_are(s: &str, len: usize, pattern: &[char]) -> (r: bool)
    requires
        len == s@.len(),
    ensures
        r == (s@ == pattern@),
{
    if len != pattern.len() {
        return false;
    }
    let mut i: usize = 0;
    while i < len
        invariant
            len == s@.len(),
            len == pattern@.len(),
            i <= len,
            forall|j: int| 0 <= j < i ==> s@[j] == pattern@[j],
        decreases len - i,
    {
        if s.get_char(i) != pattern[i] {
            return false;
        }
        i = i + 1;
    }
    assert(s@ =~= pattern@);
    true
}

impl Font {
    /// Looks up a font by the name a request uses: "6x8", "6x12", "8x16" or "12x16".
    pub fn from_name(name: &str) -> (r: Option<Font>)
        ensures
            r == font_named(name@),
    {
        let len = name.unicode_len();
        if chars_are(name, len, &['6', 'x', '8']) {
            Some(Font::Small6x8)
        } else if chars_are(name, len, &['6', 'x', '1', '2']) {
            Some(Font::Medium6x12)
        } else if chars_are(name, len, &['8', 'x', '1', '6']) {
            Some(Font::Large8x16)
        } else if chars_are(name, len, &['1', '2', 'x', '1', '6']) {
            Some(Font::XLarge12x16)
        } else {
            None
        }
    }

    /// Width of one glyph of this font, in pixels.
    pub fn glyph_width(&self) -> (r: u32)
        ensures
            r == spec_glyph_width(*self),
    {
        match self {
            Font::Small6x8 => 6,
            Font::Medium6x12 => 6,
            Font::Large8x16 => 8,
            Font::XLarge12x16 => 12,
        }
    }

    /// Height of one glyph of this font, in pixels.
    pub fn glyph_height(&self) -> (r: u32)
        ensures
            r == spec_glyph_height(*self),
    {
        match self {
            Font::Small6x8 => 8,
            Font::Medium6x12 => 12,
            Font::Large8x16 => 16,
            Font::XLarge12x16 => 16,
        }
    }
}

} // verus!
