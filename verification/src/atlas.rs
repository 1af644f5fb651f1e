//! Layout of the font atlas: one 8 by 12 cell per printable ASCII
//! character, side by side, each glyph drawn one pixel in from its cell's
//! left edge on a baseline 9 pixels down.

use vstd::prelude::*;

verus! {

/// First and last character codes of the atlas.
pub const FIRST_CODE: u8 = 32;

pub const LAST_CODE: u8 = 126;

/// Size of one character cell in pixels.
pub const CELL_WIDTH: u32 = 8;

pub const CELL_HEIGHT: u32 = 12;

/// Number of cells: one per code from `FIRST_CODE` to `LAST_CODE`.
pub open spec fn cell_count() -> nat {
    (LAST_CODE - FIRST_CODE + 1) as nat
}

/// The atlas image's width and height.
pub fn atlas_size() -> (wh: (u32, u32))
    ensures
        wh.0 == cell_count() * CELL_WIDTH,
        wh.1 == CELL_HEIGHT,
        wh == (760u32, 12u32),
{
    let total_chars = (LAST_CODE - FIRST_CODE + 1) as u32;
    (total_chars * CELL_WIDTH, CELL_HEIGHT)
}

/// Where the text origin of character `code` is placed: one pixel into its
/// cell, on the baseline.
pub open spec fn spec_glyph_origin(code: u8) -> (int, int) {
    ((code - FIRST_CODE) * CELL_WIDTH + 1, 9)
}

pub fn glyph_origin(code: u8) -> (xy: (i32, i32))
    requires
        FIRST_CODE <= code <= LAST_CODE,
    ensures
        (xy.0 as int, xy.1 as int) == spec_glyph_origin(code),
{
    let cell_x = ((code - FIRST_CODE) as u32) * CELL_WIDTH;
    (cell_x as i32 + 1, 9)
}

/// Each character's cell lies inside the atlas, and later characters sit
/// strictly to the right of earlier ones, one cell apart.
pub proof fn cells_are_disjoint(a: u8, b: u8)
    requires
        FIRST_CODE <= a < b <= LAST_CODE,
    ensures
        spec_glyph_origin(b).0 - spec_glyph_origin(a).0 >= CELL_WIDTH,
        spec_glyph_origin(b).0 - 1 + CELL_WIDTH <= cell_count() * CELL_WIDTH,
        0 <= spec_glyph_origin(a).0 - 1,
{
}

/// Where a pixel `(px, py)` of the rendered text lands on an atlas of the
/// given size: lit pixels inside the image become a 1 by 1 dot, the others
/// are dropped.
pub open spec fn spec_atlas_dot(px: i32, py: i32, on: bool, w: u32, h: u32) -> Option<(u32, u32)> {
    if on && px >= 0 && py >= 0 && (px as u32) < w && (py as u32) < h {
        Some((px as u32, py as u32))
    } else {
        None
    }
}

pub fn atlas_dot(px: i32, py: i32, on: bool, w: u32, h: u32) -> (d: Option<(u32, u32)>)
    ensures
        d == spec_atlas_dot(px, py, on, w, h),
{
    if on && px >= 0 && py >= 0 {
        let x = px as u32;
        let y = py as u32;
        if x < w && y < h {
            return Some((x, y));
        }
    }
    None
}

} // verus!
