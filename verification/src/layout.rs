//! Window and field geometry: sizes at start-up, after a resize and at the
//! minimum, and how the two windows stay docked side by side.

use vstd::prelude::*;

verus! {

/// Number of balls in a freshly generated scene.
pub const BALL_COUNT: usize = 15;

/// Height in pixels of the status panel at the bottom of each window.
pub const PANEL_HEIGHT: u32 = 24;

/// Narrowest a window (and its panel) may be.
pub const PANEL_MIN_WIDTH: u32 = 100;

/// Side of the playing field when the windows open.
pub const START_WIDTH: u32 = 400;

pub const START_HEIGHT: u32 = 400;

/// Smallest side of the playing field a window is allowed to shrink to.
pub const MIN_FIELD_SIDE: u32 = 150;

pub open spec fn max_u32(a: u32, b: u32) -> u32 {
    if a >= b {
        a
    } else {
        b
    }
}

/// Inner size of each window when it opens: the starting field, at least
/// as wide as the panel, with the panel below it.
pub fn initial_window_size() -> (wh: (u32, u32))
    ensures
        wh == (max_u32(START_WIDTH, PANEL_MIN_WIDTH), (START_HEIGHT + PANEL_HEIGHT) as u32),
        wh == (400u32, 424u32),
{
    let w = if START_WIDTH >= PANEL_MIN_WIDTH {
        START_WIDTH
    } else {
        PANEL_MIN_WIDTH
    };
    (w, START_HEIGHT + PANEL_HEIGHT)
}

/// Size of the playing field in a window of inner size `width` by
/// `height`: the whole width, and the height above the panel.
pub fn field_size(width: u32, height: u32) -> (wh: (u32, u32))
    requires
        PANEL_HEIGHT <= height,
    ensures
        wh == (width, (height - PANEL_HEIGHT) as u32),
{
    (width, height - PANEL_HEIGHT)
}

/// Smallest inner window size for a field of side `side` (the rounded
/// square root of the area its balls need, plus padding): the side, at
/// least 150 and never narrower than the panel, and the panel below.
pub fn min_window_size(side: u32) -> (wh: (u32, u32))
    requires
        max_u32(side, MIN_FIELD_SIDE) + PANEL_HEIGHT <= u32::MAX,
    ensures
        wh == (
            max_u32(max_u32(side, PANEL_MIN_WIDTH), MIN_FIELD_SIDE),
            (max_u32(side, MIN_FIELD_SIDE) + PANEL_HEIGHT) as u32,
        ),
{
    let w0 = if side >= PANEL_MIN_WIDTH {
        side
    } else {
        PANEL_MIN_WIDTH
    };
    let w = if w0 >= MIN_FIELD_SIDE {
        w0
    } else {
        MIN_FIELD_SIDE
    };
    let h0 = if side >= MIN_FIELD_SIDE {
        side
    } else {
        MIN_FIELD_SIDE
    };
    (w, h0 + PANEL_HEIGHT)
}

/// A window held at its minimum size still has a square field of at least
/// 150 pixels above the panel, and is never narrower than the panel.
pub proof fn min_window_leaves_field(side: u32)
    requires
        max_u32(side, MIN_FIELD_SIDE) + PANEL_HEIGHT <= u32::MAX,
    ensures
        ({
            let w = max_u32(max_u32(side, PANEL_MIN_WIDTH), MIN_FIELD_SIDE);
            let h = max_u32(side, MIN_FIELD_SIDE) + PANEL_HEIGHT;
            &&& PANEL_MIN_WIDTH <= w
            &&& MIN_FIELD_SIDE <= w
            &&& side <= w
            &&& h - PANEL_HEIGHT >= MIN_FIELD_SIDE
            &&& h - PANEL_HEIGHT >= side
        }),
{
}

pub open spec fn fits_i32(v: int) -> bool {
    i32::MIN <= v <= i32::MAX
}

/// Left edge of the CPU window when it is docked against the right side of
/// the GPU window whose left edge is at `left_x` and whose outer width is
/// `outer_w` (the width is cast to `i32`, as the window system's positions
/// are).
pub open spec fn right_of(left_x: i32, outer_w: u32) -> int {
    left_x + (outer_w as i32)
}

/// Left edge of the GPU window when it is docked against the left side of
/// the CPU window whose left edge is at `right_x`.
pub open spec fn left_of(right_x: i32, outer_w: u32) -> int {
    right_x - (outer_w as i32)
}

pub fn dock_right_of(left_x: i32, outer_w: u32) -> (x: i32)
    requires
        fits_i32(right_of(left_x, outer_w)),
    ensures
        x == right_of(left_x, outer_w),
{
    left_x + outer_w as i32
}

pub fn dock_left_of(right_x: i32, outer_w: u32) -> (x: i32)
    requires
        fits_i32(left_of(right_x, outer_w)),
    ensures
        x == left_of(right_x, outer_w),
{
    right_x - outer_w as i32
}

/// Docking is undone by docking back: placing the CPU window right of the
/// GPU window and then the GPU window left of it returns the GPU window to
/// where it was, and the other way round.
pub proof fn docking_round_trip(x: i32, outer_w: u32)
    requires
        fits_i32(right_of(x, outer_w)),
        fits_i32(left_of(x, outer_w)),
    ensures
        left_of(right_of(x, outer_w) as i32, outer_w) == x,
        right_of(left_of(x, outer_w) as i32, outer_w) == x,
{
}

/// Where the CPU window has to go after a resize so that it sits flush
/// right of the GPU window at `(p_x, p_y)` of outer width `p_w`, or nothing
/// when it already does.
pub open spec fn spec_resync(p_x: i32, p_y: i32, p_w: u32, sb_x: i32, sb_y: i32) -> Option<
    (i32, i32),
> {
    let expected = right_of(p_x, p_w);
    if sb_x != expected || sb_y != p_y {
        Some((expected as i32, p_y))
    } else {
        None
    }
}

pub fn resync_target(p_x: i32, p_y: i32, p_w: u32, sb_x: i32, sb_y: i32) -> (t: Option<(i32, i32)>)
    requires
        fits_i32(right_of(p_x, p_w)),
    ensures
        t == spec_resync(p_x, p_y, p_w, sb_x, sb_y),
{
    let expected = dock_right_of(p_x, p_w);
    if sb_x != expected || sb_y != p_y {
        Some((expected, p_y))
    } else {
        None
    }
}

/// Moving the CPU window where a resync asks puts it in place: a second
/// resync asks for nothing.
pub proof fn resync_settles(p_x: i32, p_y: i32, p_w: u32, sb_x: i32, sb_y: i32)
    requires
        fits_i32(right_of(p_x, p_w)),
        spec_resync(p_x, p_y, p_w, sb_x, sb_y) is Some,
    ensures
        ({
            let (x, y) = spec_resync(p_x, p_y, p_w, sb_x, sb_y)->0;
            spec_resync(p_x, p_y, p_w, x, y) is None
        }),
{
}

/// Which of the two windows an event came from.
#[derive(Clone, Copy, PartialEq, Eq, Structural, Debug)]
pub enum WindowRole {
    /// The left window, drawn on the GPU.
    Gpu,
    /// The right window, drawn on the CPU.
    Cpu,
    /// Any other window.
    Other,
}

/// A window to move so that the pair stays docked.
#[derive(Clone, Copy, PartialEq, Eq, Structural, Debug)]
pub struct DockMove {
    /// Which window to move.
    pub target: WindowRole,
    pub x: i32,
    pub y: i32,
}

/// The partner's new position when window `moved` has moved to `(x, y)`:
/// the CPU window follows flush right of a moved GPU window, the GPU window
/// follows flush left of a moved CPU window; `gpu_outer_w` is the GPU
/// window's outer width.
pub open spec fn spec_follow_move(moved: WindowRole, x: i32, y: i32, gpu_outer_w: u32) -> Option<
    DockMove,
> {
    match moved {
        WindowRole::Gpu => Some(
            DockMove { target: WindowRole::Cpu, x: right_of(x, gpu_outer_w) as i32, y },
        ),
        WindowRole::Cpu => Some(
            DockMove { target: WindowRole::Gpu, x: left_of(x, gpu_outer_w) as i32, y },
        ),
        WindowRole::Other => None,
    }
}

pub fn follow_move(moved: WindowRole, x: i32, y: i32, gpu_outer_w: u32) -> (m: Option<DockMove>)
    requires
        moved == WindowRole::Gpu ==> fits_i32(right_of(x, gpu_outer_w)),
        moved == WindowRole::Cpu ==> fits_i32(left_of(x, gpu_outer_w)),
    ensures
        m == spec_follow_move(moved, x, y, gpu_outer_w),
{
    match moved {
        WindowRole::Gpu => Some(
            DockMove { target: WindowRole::Cpu, x: dock_right_of(x, gpu_outer_w), y },
        ),
        WindowRole::Cpu => Some(
            DockMove { target: WindowRole::Gpu, x: dock_left_of(x, gpu_outer_w), y },
        ),
        WindowRole::Other => None,
    }
}

/// A follow move never moves the window that moved, and keeps both windows
/// on the same row.
pub proof fn follow_moves_the_partner(moved: WindowRole, x: i32, y: i32, gpu_outer_w: u32)
    requires
        spec_follow_move(moved, x, y, gpu_outer_w) is Some,
    ensures
        spec_follow_move(moved, x, y, gpu_outer_w)->0.target != moved,
        spec_follow_move(moved, x, y, gpu_outer_w)->0.y == y,
{
}

} // verus!
