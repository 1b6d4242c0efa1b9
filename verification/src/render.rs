//! The description of one rendered frame.
//!
//! Rendering is split from drawing: this crate computes *what* to draw — a
//! clear color and one fixed triangle under a translation and a rotation —
//! and the host turns that description into draw calls. Lengths are
//! thousandths of a unit; angles are thousandths of a degree.

use vstd::prelude::*;

verus! {

/// An RGBA color, each channel in `0..=255`.
#[derive(Clone, Copy, PartialEq, Eq, Structural, Debug)]
pub struct Color {
    pub red: u8,
    pub green: u8,
    pub blue: u8,
    pub alpha: u8,
}

/// A point in drawing space, in thousandths of a unit. The vertical axis
/// grows downward, as on screen.
#[derive(Clone, Copy, PartialEq, Eq, Structural, Debug)]
pub struct Vertex {
    pub x: i64,
    pub y: i64,
}

/// Everything one frame draws: clear the viewport to `clear`, then fill
/// the triangle `apex`, `base_left`, `base_right` with `fill`, translated
/// by (`translate_x`, `translate_y`) from the viewport's origin and then
/// rotated by `rotation` thousandths of a degree.
#[derive(Clone, Copy, PartialEq, Eq, Structural, Debug)]
pub struct Frame {
    pub clear: Color,
    pub fill: Color,
    pub apex: Vertex,
    pub base_left: Vertex,
    pub base_right: Vertex,
    pub translate_x: i64,
    pub translate_y: i64,
    pub rotation: i64,
}

/// The fixed background color: opaque green.
pub open spec fn background_color() -> Color {
    Color { red: 0, green: 255, blue: 0, alpha: 255 }
}

/// The fixed triangle color: opaque red.
pub open spec fn shape_color() -> Color {
    Color { red: 255, green: 0, blue: 0, alpha: 255 }
}

} // verus!
