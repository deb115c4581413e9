//! The per-frame input snapshot.

use vstd::prelude::*;

verus! {

/// The pointer state sampled once per frame: position in signed screen
/// coordinates and whether the primary pointer button is held down. The host
/// translates its event source's notifications into one snapshot and hands it
/// to [`crate::state::UiState::update_input`] before the frame's widget calls.
#[derive(Clone, Copy, Debug, PartialEq, Eq, Structural)]
pub struct InputSnapshot {
    /// Pointer x position.
    pub x: i32,
    /// Pointer y position.
    pub y: i32,
    /// Whether the primary pointer button is currently held down.
    pub down: bool,
}

} // verus!
