use vstd::prelude::*;

use crate::font::{font_named, Font};
use crate::text::{push_decimal, push_unsigned, spec_decimal};

verus! {

/// Largest x coordinate of a text origin: the panel is 128 pixels wide.
pub const MAX_X: i32 = 128;

/// Largest y coordinate of a text origin: the panel is 64 pixels high, less a glyph row.
pub const MAX_Y: i32 = 57;

/// Longest text, in characters, that one line may hold.
pub const MAX_TEXT_LEN: usize = 21;

/// A `write` request as it arrives, before any check.
#[derive(Debug)]
pub struct Msg {
    pub x_coord: i32,
    pub y_coord: i32,
    pub string: String,
    pub font_size: String,
}

/// A `write` request that passed validation: its origin lies on the panel,
/// its text fits one line and its font is one of the four sizes.
#[derive(Debug)]
pub struct WriteCommand {
    pub x: i32,
    pub y: i32,
    pub text: String,
    pub font: Font,
}

/// The axis of a coordinate.
#[derive(Clone, Copy, Debug, PartialEq, Eq, Structural)]
pub enum Axis {
    X,
    Y,
}

/// One violated constraint of a `write` request, with the offending value.
#[derive(Debug)]
pub enum Violation {
    InvalidString { len: usize },
    InvalidCoordinate { coord: Axis, value: i32 },
    InvalidFontSize { font: String },
}

impl WriteCommand {
    /// The bounds that every validated command keeps.
    pub open spec fn wf(&self) -> bool {
        &&& 0 <= self.x <= MAX_X
        &&& 0 <= self.y <= MAX_Y
        &&& self.text@.len() <= MAX_TEXT_LEN
    }
}

/// The violated constraints of a request, in the order text length, x, y, font.
pub open spec fn spec_violations(m: Msg) -> Seq<Violation> {
    let len = m.string@.len();
    (if len > MAX_TEXT_LEN {
        seq![Violation::InvalidString { len: len as usize }]
    } else {
        seq![]
    }) + (if !(0 <= m.x_coord <= MAX_X) {
        seq![Violation::InvalidCoordinate { coord: Axis::X, value: m.x_coord }]
    } else {
        seq![]
    }) + (if !(0 <= m.y_coord <= MAX_Y) {
        seq![Violation::InvalidCoordinate { coord: Axis::Y, value: m.y_coord }]
    } else {
        seq![]
    }) + (if font_named(m.font_size@) is None {
        seq![Violation::InvalidFontSize { font: m.font_size }]
    } else {
        seq![]
    })
}

/// Whether a request satisfies every constraint.
pub open spec fn spec_is_valid(m: Msg) -> bool {
    &&& m.string@.len() <= MAX_TEXT_LEN
    &&& 0 <= m.x_coord <= MAX_X
    &&& 0 <= m.y_coord <= MAX_Y
    &&& font_named(m.font_size@) is Some
}

/// A request has no violation exactly when it satisfies every constraint.
pub proof fn lemma_no_violation_iff_valid(m: Msg)
    ensures
        spec_violations(m).len() == 0 <==> spec_is_valid(m),
{
}

/// Collects every violated constraint of a request, in the order text length,
/// x coordinate, y coordinate, font.
pub fn violations(m: &Msg) -> (r: Vec<Violation>)
    ensures
        r@ == spec_violations(*m),
{
    let mut r: Vec<Violation> = Vec::new();
    let len = m.string.as_str().unicode_len();
    if len > MAX_TEXT_LEN {
        r.push(Violation::InvalidString { len });
    }
    let ghost after_len = r@;
    if !(0 <= m.x_coord && m.x_coord <= MAX_X) {
        r.push(Violation::InvalidCoordinate { coord: Axis::X, value: m.x_coord });
    }
    let ghost after_x = r@;
    if !(0 <= m.y_coord && m.y_coord <= MAX_Y) {
        r.push(Violation::InvalidCoordinate { coord: Axis::Y, value: m.y_coord });
    }
    let ghost after_y = r@;
    if Font::from_name(m.font_size.as_str()).is_none() {
        r.push(Violation::InvalidFontSize { font: m.font_size.clone() });
    }
    assert(r@ =~= spec_violations(*m));
    r
}

/// Checks a request against the panel's geometry, the line length and the
/// font set. Every violated constraint is reported, not only the first.
pub fn validate(m: &Msg) -> (r: Result<WriteCommand, Vec<Violation>>)
    ensures
        r is Ok <==> spec_is_valid(*m),
        r matches Ok(c) ==> {
            &&& c.x == m.x_coord
            &&& c.y == m.y_coord
            &&& c.text == m.string
            &&& font_named(m.font_size@) == Some(c.font)
            &&& c.wf()
        },
        r matches Err(v) ==> v@ == spec_violations(*m) && v@.len() > 0,
{
    let v = violations(m);
    proof {
        lemma_no_violation_iff_valid(*m);
    }
    if v.len() > 0 {
        return Err(v);
    }
    match Font::from_name(m.font_size.as_str()) {
        Some(font) => Ok(WriteCommand { x: m.x_coord, y: m.y_coord, text: m.string.clone(), font }),
        None => Err(v),
    }
}

impl Axis {
    /// The request field that holds a coordinate on this axis.
    pub fn field(&self) -> (r: &'static str)
        ensures
            r@ == (match *self {
                Axis::X => "x_coord"@,
                Axis::Y => "y_coord"@,
            }),
    {
        match self {
            Axis::X => "x_coord",
            Axis::Y => "y_coord",
        }
    }
}

/// The text that explains a violation to a caller.
pub open spec fn spec_describe(v: Violation) -> Seq<char> {
    match v {
        Violation::InvalidString { len } => "string length "@ + spec_decimal(len as int)
            + " out of range 0-21"@,
        Violation::InvalidCoordinate { coord, value } => match coord {
            Axis::X => "coordinate x out of range 0-128: "@ + spec_decimal(value as int),
            Axis::Y => "coordinate y out of range 0-57: "@ + spec_decimal(value as int),
        },
        Violation::InvalidFontSize { font } => font@
            + " is not an accepted font size; use 6x8, 6x12, 8x16 or 12x16"@,
    }
}

impl Violation {
    /// The request field that the violated constraint is about.
    pub fn field(&self) -> (r: &'static str)
        ensures
            r@ == (match *self {
                Violation::InvalidString { .. } => "string"@,
                Violation::InvalidCoordinate { coord: Axis::X, .. } => "x_coord"@,
                Violation::InvalidCoordinate { coord: Axis::Y, .. } => "y_coord"@,
                Violation::InvalidFontSize { .. } => "font_size"@,
            }),
    {
        match self {
            Violation::InvalidString { .. } => "string",
            Violation::InvalidCoordinate { coord, .. } => coord.field(),
            Violation::InvalidFontSize { .. } => "font_size",
        }
    }

    /// The range, length or set of values that the field must keep to.
    pub fn allowed(&self) -> (r: &'static str)
        ensures
            r@ == (match *self {
                Violation::InvalidString { .. } => "0-21"@,
                Violation::InvalidCoordinate { coord: Axis::X, .. } => "0-128"@,
                Violation::InvalidCoordinate { coord: Axis::Y, .. } => "0-57"@,
                Violation::InvalidFontSize { .. } => "6x8, 6x12, 8x16, 12x16"@,
            }),
    {
        match self {
            Violation::InvalidString { .. } => "0-21",
            Violation::InvalidCoordinate { coord: Axis::X, .. } => "0-128",
            Violation::InvalidCoordinate { coord: Axis::Y, .. } => "0-57",
            Violation::InvalidFontSize { .. } => "6x8, 6x12, 8x16, 12x16",
        }
    }

    /// The field, the allowed range or set, and the offending value, in words.
    pub fn describe(&self) -> (r: String)
        ensures
            r@ == spec_describe(*self),
    {
        match self {
            Violation::InvalidString { len } => {
                let mut s = String::from_str("string length ");
                push_unsigned(&mut s, *len as u64);
                s.append(" out of range 0-21");
                s
            },
            Violation::InvalidCoordinate { coord, value } => {
                let mut s = match coord {
                    Axis::X => String::from_str("coordinate x out of range 0-128: "),
                    Axis::Y => String::from_str("coordinate y out of range 0-57: "),
                };
                push_decimal(&mut s, *value as i64);
                s
            },
            Violation::InvalidFontSize { font } => {
                let s = font.clone();
                s.concat(" is not an accepted font size; use 6x8, 6x12, 8x16 or 12x16")
            },
        }
    }
}

} // verus!
