//! The widgets: stateless algorithms over [`UiState`].
//!
//! Each widget call claims hot/active for its region through
//! [`UiState::try_claim`], appends its draw calls to the frame's command
//! list, and returns its semantic result for this frame. The widgets keep no
//! state of their own: the button's fired signal is level-triggered (true
//! every frame while held and hovered), and the slider's value is owned by
//! the caller and only conditionally overwritten in place.

use vstd::arithmetic::div_mod::lemma_div_by_multiple;
use vstd::arithmetic::div_mod::lemma_div_is_ordered;
use vstd::arithmetic::mul::lemma_mul_inequality;
use vstd::prelude::*;

use crate::draw::DrawCmd;
use crate::state::spec_claim;
use crate::state::UiState;

verus! {

/// The thumb's vertical offset within the track for a `value` in `[0, max]`:
/// `(240 * value) / max`, which runs from `0` at `value == 0` to `240` at
/// `value == max`.
pub open spec fn spec_thumb_offset(value: int, max: int) -> int {
    (240 * value) / max
}

/// The pointer's offset into the slider's drag band, clamped to `[0, 255]`
/// — with the quirk that a pointer *above* the band (negative offset) clamps
/// to the maximum offset `255`, not to `0`, so dragging off the top jumps
/// the slider to its maximum.
pub open spec fn spec_drag_pos(py: int, y: int) -> int {
    let rel = py - (y + 8);
    if rel < 0 {
        255
    } else if rel > 255 {
        255
    } else {
        rel
    }
}

/// The value an active slider at `y` with range `max` takes for pointer
/// height `py`: the clamped drag offset scaled by `max / 255`.
pub open spec fn spec_drag_value(py: int, y: int, max: int) -> int {
    (spec_drag_pos(py, y) * max) / 255
}

/// The draw calls one button call appends: a black shadow at `(x+8, y+8)`
/// first, then the body — grey when idle, white when hot, and white shifted
/// to `(x+2, y+2)` (visually depressed) when hot and active.
pub open spec fn spec_button_cmds(x: i32, y: i32, width: u32, height: u32, hot: bool, active: bool) -> Seq<DrawCmd> {
    seq![
        DrawCmd::SetColor { r: 0, g: 0, b: 0 },
        DrawCmd::FillRect { x: (x + 8) as i32, y: (y + 8) as i32, w: width, h: height },
    ] + if hot {
        if active {
            seq![
                DrawCmd::SetColor { r: 255, g: 255, b: 255 },
                DrawCmd::FillRect { x: (x + 2) as i32, y: (y + 2) as i32, w: width, h: height },
            ]
        } else {
            seq![
                DrawCmd::SetColor { r: 255, g: 255, b: 255 },
                DrawCmd::FillRect { x, y, w: width, h: height },
            ]
        }
    } else {
        seq![
            DrawCmd::SetColor { r: 127, g: 127, b: 127 },
            DrawCmd::FillRect { x, y, w: width, h: height },
        ]
    }
}

/// The draw calls one slider call appends: the grey track, then the 16x16
/// thumb at its offset for the incoming `value` — white when the slider is
/// hot or active, light grey otherwise.
pub open spec fn spec_slider_cmds(x: i32, y: i32, value: int, max: int, highlight: bool) -> Seq<DrawCmd> {
    seq![
        DrawCmd::SetColor { r: 0x77, g: 0x77, b: 0x77 },
        DrawCmd::FillRect { x, y, w: 32, h: 272 },
        if highlight {
            DrawCmd::SetColor { r: 0xff, g: 0xff, b: 0xff }
        } else {
            DrawCmd::SetColor { r: 0xaa, g: 0xaa, b: 0xaa }
        },
        DrawCmd::FillRect {
            x: (x + 8) as i32,
            y: (y + 8 + spec_thumb_offset(value, max)) as i32,
            w: 16,
            h: 16,
        },
    ]
}

/// For `0 <= value <= max` with `max >= 1`, the thumb offset lies in
/// `[0, 240]`.
pub proof fn lemma_thumb_offset_bounds(value: int, max: int)
    requires
        1 <= max,
        0 <= value <= max,
    ensures
        0 <= spec_thumb_offset(value, max) <= 240,
{
    lemma_div_is_ordered(240 * value, 240 * max, max);
    lemma_div_by_multiple(240, max);
    lemma_div_is_ordered(0, 240 * value, max);
}

/// For `max >= 1` and a drag offset in `[0, 255]`, the mapped value lies in
/// `[0, max]`.
pub proof fn lemma_drag_value_bounds(py: int, y: int, max: int)
    requires
        1 <= max,
    ensures
        0 <= spec_drag_value(py, y, max) <= max,
{
    let pos = spec_drag_pos(py, y);
    lemma_mul_inequality(pos, 255, max);
    lemma_div_is_ordered(pos * max, 255 * max, 255);
    lemma_div_by_multiple(max, 255);
    lemma_div_is_ordered(0, pos * max, 255);
    lemma_mul_inequality(0, pos, max);
}

impl UiState {
    /// One button at `(x, y)` with size `width` x `height` under identity
    /// `id`. Claims hot/active for the region, appends the button's draw
    /// calls to `cmds`, and reports whether the button fired: true exactly
    /// while the pointer button is down and this widget is both hot and
    /// active, so the signal stays true every frame of a held, hovered
    /// press. Callers wanting one-shot clicks edge-detect on top of it.
    pub fn button(&mut self, cmds: &mut Vec<DrawCmd>, id: i32, x: i32, y: i32, width: u32, height: u32) -> (fired: bool)
        requires
            x + 8 <= i32::MAX,
            y + 8 <= i32::MAX,
        ensures
            *final(self) == spec_claim(*old(self), id, x as int, y as int, width as int, height as int),
            fired == (old(self).input.down && final(self).hot_item == Some(id)
                && final(self).active_item == Some(id)),
            final(cmds)@ == old(cmds)@ + spec_button_cmds(
                x,
                y,
                width,
                height,
                final(self).hot_item == Some(id),
                final(self).active_item == Some(id),
            ),
    {
        let ghost cmds0 = cmds@;
        let (is_hot, is_active) = self.try_claim(id, x, y, width, height);

        cmds.push(DrawCmd::SetColor { r: 0, g: 0, b: 0 });
        cmds.push(DrawCmd::FillRect { x: x + 8, y: y + 8, w: width, h: height });

        if is_hot {
            cmds.push(DrawCmd::SetColor { r: 255, g: 255, b: 255 });
            if is_active {
                cmds.push(DrawCmd::FillRect { x: x + 2, y: y + 2, w: width, h: height });
            } else {
                cmds.push(DrawCmd::FillRect { x, y, w: width, h: height });
            }
        } else {
            cmds.push(DrawCmd::SetColor { r: 127, g: 127, b: 127 });
            cmds.push(DrawCmd::FillRect { x, y, w: width, h: height });
        }

        proof {
            assert(cmds@ =~= cmds0 + spec_button_cmds(x, y, width, height, is_hot, is_active));
        }

        self.input.down && is_hot && is_active
    }

    /// One vertical slider at `(x, y)` ranging over `[0, max]`, under
    /// identity `id`. The hit band is the 16-wide, 255-tall strip at
    /// `(x+8, y+8)` — the thumb's whole travel, so the track can be grabbed
    /// anywhere, not only on the thumb. Claims hot/active, appends the track
    /// and thumb draw calls (the thumb positioned from the incoming
    /// `*value`), and, only while this slider is the active widget, remaps
    /// the pointer height to a new value: offsets outside the band clamp to
    /// the maximum travel (including pointer positions above the band — see
    /// [`spec_drag_pos`]). Writes the remapped value back only when it
    /// differs, and reports whether it did.
    pub fn slider(&mut self, cmds: &mut Vec<DrawCmd>, id: i32, x: i32, y: i32, max: i32, value: &mut i32) -> (changed: bool)
        requires
            1 <= max,
            0 <= *old(value) <= max,
            x + 8 <= i32::MAX,
            y + 248 <= i32::MAX,
        ensures
            *final(self) == spec_claim(*old(self), id, x + 8, y + 8, 16, 255),
            0 <= *final(value) <= max,
            ({
                let dragged = final(self).active_item == Some(id)
                    && spec_drag_value(old(self).input.y as int, y as int, max as int) != *old(value);
                &&& changed == dragged
                &&& *final(value) == if dragged {
                    spec_drag_value(old(self).input.y as int, y as int, max as int)
                } else {
                    *old(value) as int
                }
            }),
            final(cmds)@ == old(cmds)@ + spec_slider_cmds(
                x,
                y,
                *old(value) as int,
                max as int,
                final(self).hot_item == Some(id) || final(self).active_item == Some(id),
            ),
    {
        let ghost cmds0 = cmds@;
        proof {
            lemma_thumb_offset_bounds(*value as int, max as int);
        }
        let ypos: i32 = ((240u64 * (*value as u64)) / (max as u64)) as i32;

        let (is_hot, is_active) = self.try_claim(id, x + 8, y + 8, 16, 255);

        cmds.push(DrawCmd::SetColor { r: 0x77, g: 0x77, b: 0x77 });
        cmds.push(DrawCmd::FillRect { x, y, w: 32, h: 272 });

        if is_active || is_hot {
            cmds.push(DrawCmd::SetColor { r: 0xff, g: 0xff, b: 0xff });
        } else {
            cmds.push(DrawCmd::SetColor { r: 0xaa, g: 0xaa, b: 0xaa });
        }
        cmds.push(DrawCmd::FillRect { x: x + 8, y: y + 8 + ypos, w: 16, h: 16 });

        proof {
            assert(cmds@ =~= cmds0 + spec_slider_cmds(
                x,
                y,
                *value as int,
                max as int,
                is_hot || is_active,
            ));
        }

        if is_active {
            let rel: i64 = (self.input.y as i64) - ((y as i64) + 8);
            let pos: i64 = if rel < 0 {
                255
            } else if rel > 255 {
                255
            } else {
                rel
            };
            proof {
                lemma_drag_value_bounds(self.input.y as int, y as int, max as int);
            }
            let v: i32 = (((pos as u64) * (max as u64)) / 255u64) as i32;
            if v != *value {
                *value = v;
                return true;
            }
        }

        false
    }
}

} // verus!
