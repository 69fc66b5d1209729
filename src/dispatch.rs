use vstd::prelude::*;

use crate::error::OledError;
use crate::font::{font_named, Font};
use crate::raster::{rasterize, spec_raster};
use crate::validate::{spec_is_valid, spec_violations, validate, Msg, WriteCommand};

verus! {

/// A command as the transport hands it over.
#[derive(Debug)]
pub enum Command {
    Write(Msg),
    Clear,
    Flush,
}

/// A validated text and the pixels it is drawn as.
#[derive(Debug)]
pub struct Drawing {
    pub cmd: WriteCommand,
    pub pixels: Vec<(u32, u32, u8)>,
}

/// One call into the display driver.
#[derive(Debug)]
pub enum DriverOp {
    /// Put a drawing into the in-memory buffer.
    Draw(Drawing),
    /// Blank the in-memory buffer.
    Clear,
    /// Send the in-memory buffer to the panel.
    Flush,
}

/// What a drawing holds.
pub struct DrawingView {
    pub x: i32,
    pub y: i32,
    pub font: Font,
    pub text: Seq<char>,
    pub pixels: Seq<(u32, u32, u8)>,
}

/// What a driver call holds.
pub enum DriverOpView {
    Draw(DrawingView),
    Clear,
    Flush,
}

impl View for Drawing {
    type V = DrawingView;

    open spec fn view(&self) -> DrawingView {
        DrawingView {
            x: self.cmd.x,
            y: self.cmd.y,
            font: self.cmd.font,
            text: self.cmd.text@,
            pixels: self.pixels@,
        }
    }
}

impl View for DriverOp {
    type V = DriverOpView;

    open spec fn view(&self) -> DriverOpView {
        match self {
            DriverOp::Draw(d) => DriverOpView::Draw(d@),
            DriverOp::Clear => DriverOpView::Clear,
            DriverOp::Flush => DriverOpView::Flush,
        }
    }
}

/// The views of a list of driver calls.
pub open spec fn ops_view(ops: Seq<DriverOp>) -> Seq<DriverOpView> {
    ops.map_values(|op: DriverOp| op@)
}

/// The drawing that a valid `write` request asks for.
pub open spec fn spec_drawing(m: Msg) -> DrawingView {
    let font = font_named(m.font_size@)->0;
    DrawingView {
        x: m.x_coord,
        y: m.y_coord,
        font,
        text: m.string@,
        pixels: spec_raster(font, m.string@, m.x_coord, m.y_coord),
    }
}

/// The driver calls that a command comes to, or `None` where it is rejected
/// before the panel is touched.
pub open spec fn spec_plan(cmd: Command) -> Option<Seq<DriverOpView>> {
    match cmd {
        Command::Write(m) => if spec_is_valid(m) {
            Some(seq![DriverOpView::Draw(spec_drawing(m))])
        } else {
            None
        },
        Command::Clear => Some(seq![DriverOpView::Clear, DriverOpView::Flush]),
        Command::Flush => Some(seq![DriverOpView::Flush]),
    }
}

/// Decides the driver calls that one command makes while it holds the panel.
/// A `write` is validated first: a rejected one yields every violated
/// constraint and no call at all; an accepted one yields a single draw of its
/// rasterised text and no flush. A `clear` blanks the buffer and flushes it;
/// a `flush` only flushes.
pub fn plan(cmd: &Command) -> (r: Result<Vec<DriverOp>, OledError>)
    ensures
        match spec_plan(*cmd) {
            Some(ops) => (r matches Ok(v) && ops_view(v@) == ops),
            None => match (*cmd, r) {
                (Command::Write(m), Err(OledError::ValidationFailed { violations })) => violations@
                    == spec_violations(m),
                _ => false,
            },
        },
{
    match cmd {
        Command::Write(m) => match validate(m) {
            Ok(c) => {
                let pixels = rasterize(&c);
                let mut ops: Vec<DriverOp> = Vec::new();
                ops.push(DriverOp::Draw(Drawing { cmd: c, pixels }));
                assert(ops_view(ops@) =~= seq![DriverOpView::Draw(spec_drawing(*m))]);
                Ok(ops)
            },
            Err(violations) => Err(OledError::ValidationFailed { violations }),
        },
        Command::Clear => {
            let mut ops: Vec<DriverOp> = Vec::new();
            ops.push(DriverOp::Clear);
            ops.push(DriverOp::Flush);
            assert(ops_view(ops@) =~= seq![DriverOpView::Clear, DriverOpView::Flush]);
            Ok(ops)
        },
        Command::Flush => {
            let mut ops: Vec<DriverOp> = Vec::new();
            ops.push(DriverOp::Flush);
            assert(ops_view(ops@) =~= seq![DriverOpView::Flush]);
            Ok(ops)
        },
    }
}

/// The reply to a command once its driver calls have run: success, or a bus
/// error carrying the driver's account of the failed flush. A failed flush is
/// never reported as success.
pub fn complete(bus_fault: Option<String>) -> (r: Result<String, OledError>)
    ensures
        match bus_fault {
            None => (r matches Ok(s) && s@ == "success"@),
            Some(d) => (r matches Err(OledError::I2CError { detail }) && detail == d),
        },
{
    match bus_fault {
        None => Ok(String::from_str("success")),
        Some(detail) => Err(OledError::I2CError { detail }),
    }
}

} // verus!
