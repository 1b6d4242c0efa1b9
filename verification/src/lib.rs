//! Motion and render-step logic for a keyboard-driven triangle.
//!
//! A single entity (a fixed triangle) is moved and rotated by held keys,
//! clamped to the window bounds, and rendered centered in the viewport.
//! All geometry is integer fixed-point: lengths are thousandths of a unit,
//! angles are thousandths of a degree, and time steps are milliseconds.
//! The host windowing loop lives outside this crate and feeds events in.

use vstd::prelude::*;

pub mod app;
pub mod keys;
pub mod player;
pub mod render;

pub use app::App;
pub use keys::InputState;
pub use keys::Key;
pub use player::Player;
pub use render::Color;
pub use render::Frame;
pub use render::Vertex;

verus! {

/// Largest time step, in milliseconds, that an update step accepts.
pub const MAX_DT: u64 = 1_000_000_000;

} // verus!
