//! The frame-persistent interaction state and its resolution rules.
//!
//! [`UiState`] tracks which widget the pointer is over ("hot") and which
//! widget a pointer-down gesture has grabbed ("active"). The hot item is
//! recomputed from scratch every frame: [`UiState::prepare`] clears it, and
//! each widget call re-claims it through [`UiState::try_claim`]; when regions
//! overlap, the last widget tested in the frame wins, so call order is
//! stacking order. The active item is set only when a widget is hot, the
//! button is down, and nothing else is active; it persists across frames —
//! even when the pointer leaves the region — until [`UiState::finish`] sees
//! the button released. That distinction is what makes press-drag-release
//! work.
//!
//! Widget identity is a caller-supplied integer that must be stable across
//! frames for the same logical widget and distinct between widgets visible in
//! the same frame: two widgets sharing an id silently steal each other's hot
//! and active state, and the engine has no registry with which to detect it.

use vstd::prelude::*;

use crate::input::InputSnapshot;

verus! {

/// Whether the point `(px, py)` lies in the half-open rectangle
/// `[x, x+w) x [y, y+h)`. Half-open on both axes, so widgets that share an
/// edge never both report a hit there, and a zero-sized region is never hit.
pub open spec fn spec_region_hit(px: int, py: int, x: int, y: int, w: int, h: int) -> bool {
    x <= px && px < x + w && y <= py && py < y + h
}

/// Whether `s`'s pointer lies in the half-open rectangle `[x, x+w) x [y, y+h)`.
pub open spec fn pointer_in(s: UiState, x: int, y: int, w: int, h: int) -> bool {
    spec_region_hit(s.input.x as int, s.input.y as int, x, y, w, h)
}

/// The state after replacing the stored input snapshot.
pub open spec fn spec_update_input(s: UiState, snap: InputSnapshot) -> UiState {
    UiState { input: snap, ..s }
}

/// The state at the start of a frame: the hot item is forgotten so that this
/// frame's widget calls recompute it from the current pointer position.
pub open spec fn spec_prepare(s: UiState) -> UiState {
    UiState { hot_item: None, ..s }
}

/// The state at the end of a frame: a released pointer button ends the
/// current grab, whatever it was; while the button stays down the active
/// item is kept.
pub open spec fn spec_finish(s: UiState) -> UiState {
    if s.input.down {
        s
    } else {
        UiState { active_item: None, ..s }
    }
}

/// The state after one widget claims the region `[x, x+w) x [y, y+h)` under
/// identity `id`: a hit makes the widget hot (displacing any earlier claim
/// this frame), and additionally grabs it — makes it active — when the
/// button is down and no widget is active yet. A miss changes nothing.
pub open spec fn spec_claim(s: UiState, id: i32, x: int, y: int, w: int, h: int) -> UiState {
    if pointer_in(s, x, y, w, h) {
        UiState {
            hot_item: Some(id),
            active_item: if s.active_item is None && s.input.down {
                Some(id)
            } else {
                s.active_item
            },
            ..s
        }
    } else {
        s
    }
}

/// The interaction state kept across frames: the current input snapshot, the
/// widget the pointer is over this frame, and the widget grabbed by the
/// ongoing pointer-down gesture, if any.
#[derive(Clone, Copy, Debug, PartialEq, Eq)]
pub struct UiState {
    /// The pointer snapshot the current frame's hit tests read.
    pub input: InputSnapshot,
    /// The widget the pointer is over, recomputed every frame.
    pub hot_item: Option<i32>,
    /// The widget grabbed by the current pointer-down gesture, kept across
    /// frames until the button is released.
    pub active_item: Option<i32>,
}

impl UiState {
    /// A fresh state: pointer at the origin, button up, nothing hot or
    /// active.
    pub fn new() -> (s: UiState)
        ensures
            s.input == (InputSnapshot { x: 0, y: 0, down: false }),
            s.hot_item is None,
            s.active_item is None,
    {
        UiState {
            input: InputSnapshot { x: 0, y: 0, down: false },
            hot_item: None,
            active_item: None,
        }
    }

    /// Replaces the stored input snapshot. Call once per frame, before
    /// `prepare` and the widget calls, so hit tests see current pointer data.
    pub fn update_input(&mut self, snap: InputSnapshot)
        ensures
            *final(self) == spec_update_input(*old(self), snap),
    {
        self.input = snap;
    }

    /// Whether the current pointer position lies in `[x, x+width) x
    /// [y, y+height)`. Degenerate regions (zero width or height, or ones
    /// whose extent leaves the coordinate range) simply never report a hit.
    pub fn region_hit(&self, x: i32, y: i32, width: u32, height: u32) -> (hit: bool)
        ensures
            hit == pointer_in(*self, x as int, y as int, width as int, height as int),
    {
        !(self.input.x < x
            || self.input.y < y
            || (self.input.x as i64) >= (x as i64) + (width as i64)
            || (self.input.y as i64) >= (y as i64) + (height as i64))
    }

    /// Starts a frame by forgetting the hot item. Call once per frame,
    /// before any widget call.
    pub fn prepare(&mut self)
        ensures
            *final(self) == spec_prepare(*old(self)),
    {
        self.hot_item = None;
    }

    /// Ends a frame: when the pointer button is no longer down, the active
    /// item is cleared, whatever it was. Call once per frame, after all
    /// widget calls.
    pub fn finish(&mut self)
        ensures
            *final(self) == spec_finish(*old(self)),
            !old(self).input.down ==> final(self).active_item is None,
    {
        if !self.input.down {
            self.active_item = None;
        }
    }

    /// The one place the hover/grab rule lives: hit-tests the region, makes
    /// the widget hot on a hit, and grabs it (makes it active) when the
    /// button is down and nothing else is active. Returns whether `id` is
    /// now hot and whether it is now active; widgets branch on those rather
    /// than re-deriving the rule.
    pub fn try_claim(&mut self, id: i32, x: i32, y: i32, width: u32, height: u32) -> (r: (
        bool,
        bool,
    ))
        ensures
            *final(self) == spec_claim(*old(self), id, x as int, y as int, width as int, height as int),
            r.0 == (final(self).hot_item == Some(id)),
            r.1 == (final(self).active_item == Some(id)),
    {
        if self.region_hit(x, y, width, height) {
            self.hot_item = Some(id);
            if self.active_item.is_none() && self.input.down {
                self.active_item = Some(id);
            }
        }
        let is_hot = match self.hot_item {
            Some(h) => h == id,
            None => false,
        };
        let is_active = match self.active_item {
            Some(a) => a == id,
            None => false,
        };
        (is_hot, is_active)
    }
}

impl Default for UiState {
    /// Same state as [`UiState::new`].
    fn default() -> (s: UiState)
        ensures
            s.input == (InputSnapshot { x: 0, y: 0, down: false }),
            s.hot_item is None,
            s.active_item is None,
    {
        UiState::new()
    }
}

} // verus!
