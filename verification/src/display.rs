use vstd::prelude::*;

use crate::CANVAS_HEIGHT;
use crate::CANVAS_WIDTH;
use crate::game::in_bounds;
use crate::game::CanvasSpace;

verus! {

/// A cell of the physical terminal's character grid. Derived from a
/// [`CanvasSpace`] and the current terminal size; recomputed every frame,
/// never cached, since the terminal can be resized between frames.
#[derive(Clone, Copy, Debug, PartialEq, Eq, Structural)]
pub struct TerminalSpace {
    pub x: u32,
    pub y: u32,
}

/// Subtraction that floors at zero, so the canvas stays visible even on an
/// undersized terminal.
pub open spec fn sat_sub(a: int, b: int) -> int {
    if a >= b {
        a - b
    } else {
        0
    }
}

fn sub_or_zero(a: u16, b: u16) -> (r: u16)
    ensures
        r == sat_sub(a as int, b as int),
{
    if a >= b {
        a - b
    } else {
        0
    }
}

/// The physical column of a logical cell: the canvas's left edge, centred
/// on the terminal, plus two columns per logical cell, plus one for the
/// border.
pub open spec fn display_x(pos: CanvasSpace, terminal_width: u16) -> int {
    sat_sub(terminal_width as int / 2, CANVAS_WIDTH as int / 2) + pos.x * 2 + 1
}

/// The physical row of a logical cell: the canvas's upper edge, centred on
/// the terminal, plus one row per logical cell, plus one for the border.
pub open spec fn display_y(pos: CanvasSpace, terminal_height: u16) -> int {
    sat_sub(terminal_height as int / 2, CANVAS_HEIGHT as int / 4) + pos.y + 1
}

/// Map a logical grid cell to the physical display cell it occupies on a
/// terminal of the given size. Deterministic and total on the grid.
pub fn to_display(pos: CanvasSpace, terminal_width: u16, terminal_height: u16) -> (d:
    TerminalSpace)
    requires
        in_bounds(pos),
    ensures
        d.x == display_x(pos, terminal_width),
        d.y == display_y(pos, terminal_height),
{
    TerminalSpace {
        x: sub_or_zero(terminal_width / 2, CANVAS_WIDTH / 2) as u32 + pos.x * 2 + 1,
        y: sub_or_zero(terminal_height / 2, CANVAS_HEIGHT / 4) as u32 + pos.y + 1,
    }
}

/// The four border lines of the playfield on a terminal of the given size,
/// as (left column, right column, upper row, lower row). The left and
/// upper edges floor at zero on an undersized terminal.
pub fn border_bounds(terminal_width: u16, terminal_height: u16) -> (b: (u16, u16, u16, u16))
    ensures
        b.0 == sat_sub(terminal_width as int / 2, CANVAS_WIDTH as int / 2),
        b.1 == terminal_width as int / 2 + CANVAS_WIDTH as int / 2,
        b.2 == sat_sub(terminal_height as int / 2, CANVAS_HEIGHT as int / 4),
        b.3 == terminal_height as int / 2 + CANVAS_HEIGHT as int / 4,
{
    let left = sub_or_zero(terminal_width / 2, CANVAS_WIDTH / 2);
    let right = terminal_width / 2 + CANVAS_WIDTH / 2;
    let upper = sub_or_zero(terminal_height / 2, CANVAS_HEIGHT / 4);
    let lower = terminal_height / 2 + CANVAS_HEIGHT / 4;
    (left, right, upper, lower)
}

/// Where the first line of the logo banner starts: horizontally offset from
/// the centre by a sixth of the banner's line length, two rows above the
/// centre; both floored at zero.
pub fn logo_origin(terminal_width: u16, terminal_height: u16, line_len: u16) -> (o: (u16, u16))
    ensures
        o.0 == sat_sub(terminal_width as int / 2, line_len as int / 6),
        o.1 == sat_sub(terminal_height as int / 2, 2),
{
    let x = sub_or_zero(terminal_width / 2, line_len / 6);
    let y = sub_or_zero(terminal_height / 2, 2);
    (x, y)
}

/// Where the centred score line of the end screen starts: horizontally
/// centred for a message of the given length (floored at zero), five rows
/// below the centre.
pub fn score_line_origin(terminal_width: u16, terminal_height: u16, message_len: u16) -> (o: (
    u16,
    u16,
))
    ensures
        o.0 == sat_sub(terminal_width as int / 2, message_len as int / 2),
        o.1 == terminal_height as int / 2 + 5,
{
    let x = sub_or_zero(terminal_width / 2, message_len / 2);
    let y = terminal_height / 2 + 5;
    (x, y)
}

} // verus!
