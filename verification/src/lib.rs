//! An immediate-mode GUI interaction engine.
//!
//! Every frame, the caller feeds the current pointer snapshot into a
//! [`state::UiState`], calls [`state::UiState::prepare`], invokes the widget
//! calls in a fixed order, and calls [`state::UiState::finish`]. Each widget
//! call hit-tests its region, resolves which widget is hovered ("hot") and
//! which is grabbed ("active"), appends its draw calls to a command list, and
//! returns its semantic result for the frame. The host executes the command
//! list against whatever renderer it owns; the engine itself never draws,
//! polls events, or keeps a widget tree.

pub mod draw;
pub mod input;
pub mod laws;
pub mod state;
pub mod widgets;
