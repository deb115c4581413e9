//! Draw commands emitted by the widgets.
//!
//! The engine never touches a renderer directly: each widget call appends
//! `DrawCmd`s to a list, and the host replays them, in order, against its
//! renderer ("set color", "fill rectangle") before presenting the frame.

use vstd::prelude::*;

verus! {

/// One renderer operation. Commands are interpreted in list order; a
/// `SetColor` applies to every `FillRect` after it until the next `SetColor`.
#[derive(Clone, Copy, Debug, PartialEq, Eq, Structural)]
pub enum DrawCmd {
    /// Select the current draw color (red, green, blue).
    SetColor { r: u8, g: u8, b: u8 },
    /// Fill the rectangle `[x, x+w) x [y, y+h)` with the current color.
    FillRect { x: i32, y: i32, w: u32, h: u32 },
}

} // verus!
