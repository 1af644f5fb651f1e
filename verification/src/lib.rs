//! Verified core of a two-window bouncing-balls demo: ball markers and
//! colours, the software rasterisation of a frame onto an RGB canvas, the
//! status line, the font-atlas layout, the mouse state of a render thread,
//! and the geometry that keeps the two windows docked side by side.
//!
//! Ball positions, velocities, radii and masses are floating-point values;
//! they stay with the application, which hands this library the whole-pixel
//! quantities (rounded centres and radii, field edges, window sizes) that
//! the drawing and layout rules read.

pub mod atlas;
mod canvas;
pub mod color;
pub mod layout;
pub mod marker;
pub mod pointer;
mod random;
pub mod scene;
pub mod text;

pub use canvas::{
    canvas_height, canvas_pixels, canvas_width, disc_painted, in_rect, paint_rect, paint_rects,
    spec_pack_rgb, Canvas, Rgb8,
};
pub use marker::{Rect, ShapeMarker};
