//! Drawing commands: what a frame asks of the screen, as plain values.

use vstd::prelude::*;

verus! {

/// One request to the screen. Coordinates are pixels, with `y` growing
/// downward.
#[derive(Clone, Copy, Debug, PartialEq, Eq, Structural)]
pub enum DrawCmd {
    /// Choose the colour of what follows.
    Color { index: u16 },
    /// A line from `(x1, y1)` to `(x2, y2)`.
    Line { x1: i32, y1: i32, x2: i32, y2: i32 },
    /// A filled rectangle with its corner at `(x, y)`.
    Rect { x: i32, y: i32, width: u32, height: u32 },
}

/// One placement of a text.
#[derive(Clone, Copy, Debug)]
pub struct TextDraw<'a> {
    pub text: &'a str,
    pub color: u16,
    pub x: i32,
    pub y: i32,
}

/// A text with its shadow: first the shadow in colour `dc`, one pixel to the
/// left and one down, then the text itself in colour `sc` at `(x, y)`.
pub fn shadow_text<'a>(text_v: &'a str, x: i32, y: i32, sc: u16, dc: u16) -> (r: [TextDraw<'a>; 2])
    requires
        x > i32::MIN,
        y < i32::MAX,
    ensures
        r[0].text@ == text_v@,
        r[0].color == dc,
        r[0].x == x - 1,
        r[0].y == y + 1,
        r[1].text@ == text_v@,
        r[1].color == sc,
        r[1].x == x,
        r[1].y == y,
{
    [
        TextDraw { text: text_v, color: dc, x: x - 1, y: y + 1 },
        TextDraw { text: text_v, color: sc, x, y },
    ]
}

} // verus!
