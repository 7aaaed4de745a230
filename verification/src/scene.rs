//! Scene description: an ordered, fixed list of rectangle specifications,
//! built once at startup and never mutated during the run.
//!
//! Coordinates and sizes are whole pixels. Colors, z-index and softness are
//! opaque 32-bit scalars: the core copies them into vertices untouched, and
//! the unverified GPU layer stores the bit pattern of the 32-bit float it
//! hands to the shader in them.

use vstd::prelude::*;

verus! {

/// An RGBA color, one opaque 32-bit scalar per channel.
#[derive(Clone, Copy, PartialEq, Eq, Debug)]
pub struct Rgba {
    pub r: u32,
    pub g: u32,
    pub b: u32,
    pub a: u32,
}

/// An RGB color, one opaque 32-bit scalar per channel.
#[derive(Clone, Copy, PartialEq, Eq, Debug)]
pub struct Rgb {
    pub r: u32,
    pub g: u32,
    pub b: u32,
}

/// Interior fill of a rectangle.
#[derive(Clone, Copy, PartialEq, Eq, Debug)]
pub struct Fill {
    pub color: Rgba,
}

/// Stroke band of a rectangle: color and width in pixels.
#[derive(Clone, Copy, PartialEq, Eq, Debug)]
pub struct Stroke {
    pub color: Rgb,
    pub width: u32,
}

/// One rectangle of the scene.
///
/// `center_x`/`center_y` are the rectangle's CENTER (not a corner) in window
/// pixels, y growing downward. `width`/`height` are the full size in pixels.
/// `border_radius` is the corner rounding in pixels; `softness` the
/// antialiasing falloff width; `z_index` a layering hint carried per vertex
/// but not used to reorder draws. A rectangle without a fill is rejected by
/// the vertex generator rather than accepted silently.
#[derive(Clone, Copy, PartialEq, Eq, Debug)]
pub struct Rect {
    pub center_x: i32,
    pub center_y: i32,
    pub width: u32,
    pub height: u32,
    pub border_radius: u32,
    pub fill: Option<Fill>,
    pub stroke: Option<Stroke>,
    pub z_index: u32,
    pub softness: u32,
}

/// Every rectangle of the scene has a fill color: the inputs on which the
/// vertex generator succeeds.
pub open spec fn scene_filled(scene: Seq<Rect>) -> bool {
    forall|i: int| 0 <= i < scene.len() ==> (#[trigger] scene[i].fill) is Some
}

} // verus!
