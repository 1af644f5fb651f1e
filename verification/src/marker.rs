use crate::random::random_below;
use vstd::prelude::*;

verus! {

/// The small symbol drawn in the middle of a ball.
#[derive(Clone, Copy, PartialEq, Eq, Structural, Debug)]
pub enum ShapeMarker {
    Plain,
    Square,
    Dot,
    Cross,
    Rhombus,
    Triangle,
    Star,
}

/// The six markers that a ball can be given, in the order in which scenes
/// hand them out.
pub open spec fn marker_cycle(k: int) -> ShapeMarker {
    if k == 0 {
        ShapeMarker::Square
    } else if k == 1 {
        ShapeMarker::Dot
    } else if k == 2 {
        ShapeMarker::Cross
    } else if k == 3 {
        ShapeMarker::Rhombus
    } else if k == 4 {
        ShapeMarker::Triangle
    } else {
        ShapeMarker::Star
    }
}

/// Number of markers a ball can carry (every marker but `Plain`).
pub const MARKER_KINDS: usize = 6;

/// The marker at position `k` of the cycle of drawable markers.
pub fn marker_at(k: usize) -> (m: ShapeMarker)
    requires
        k < MARKER_KINDS,
    ensures
        m == marker_cycle(k as int),
        m != ShapeMarker::Plain,
{
    if k == 0 {
        ShapeMarker::Square
    } else if k == 1 {
        ShapeMarker::Dot
    } else if k == 2 {
        ShapeMarker::Cross
    } else if k == 3 {
        ShapeMarker::Rhombus
    } else if k == 4 {
        ShapeMarker::Triangle
    } else {
        ShapeMarker::Star
    }
}

/// The marker given to the `i`-th ball of a freshly generated scene: the
/// markers repeat in cycle order.
pub fn scene_marker(i: usize) -> (m: ShapeMarker)
    ensures
        m == marker_cycle((i % MARKER_KINDS) as int),
        m != ShapeMarker::Plain,
{
    marker_at(i % MARKER_KINDS)
}

/// The marker of a newly spawned ball: one of the six drawable markers,
/// drawn at random.
pub fn random_marker() -> (m: ShapeMarker)
    ensures
        exists|k: int| 0 <= k < MARKER_KINDS && m == marker_cycle(k),
        m != ShapeMarker::Plain,
{
    let k = random_below(MARKER_KINDS);
    marker_at(k)
}

/// While a scene is generated, a ball is placed at the first candidate
/// position that overlaps no earlier ball, or at the candidate after 200
/// failed attempts.
pub open spec fn spec_placement_accepted(overlapping: bool, attempts: u32) -> bool {
    !overlapping || attempts > 200
}

pub fn placement_accepted(overlapping: bool, attempts: u32) -> (ok: bool)
    ensures
        ok == spec_placement_accepted(overlapping, attempts),
{
    !overlapping || attempts > 200
}

/// A candidate that overlaps no earlier ball is always taken, at any
/// attempt; an overlapping one is refused until attempt 201.
pub proof fn free_candidate_is_taken(overlapping: bool, attempts: u32)
    ensures
        !overlapping ==> spec_placement_accepted(overlapping, attempts),
        overlapping && attempts <= 200 ==> !spec_placement_accepted(overlapping, attempts),
{
}

/// Placing a ball never takes more than 202 candidates: by attempt 201 any
/// candidate is taken, so the attempt counter stays far from overflow.
pub proof fn placement_is_bounded(overlapping: bool, attempts: u32)
    requires
        attempts >= 201,
    ensures
        spec_placement_accepted(overlapping, attempts),
{
}

/// The number under which the GPU shader knows a marker.
pub open spec fn spec_shader_id(m: ShapeMarker) -> u32 {
    match m {
        ShapeMarker::Plain => 0,
        ShapeMarker::Square => 1,
        ShapeMarker::Dot => 2,
        ShapeMarker::Cross => 3,
        ShapeMarker::Rhombus => 4,
        ShapeMarker::Triangle => 5,
        ShapeMarker::Star => 6,
    }
}

/// Shader id of a marker (the application hands it to the GPU as a float).
pub fn shader_id(m: ShapeMarker) -> (id: u32)
    ensures
        id == spec_shader_id(m),
{
    match m {
        ShapeMarker::Plain => 0,
        ShapeMarker::Square => 1,
        ShapeMarker::Dot => 2,
        ShapeMarker::Cross => 3,
        ShapeMarker::Rhombus => 4,
        ShapeMarker::Triangle => 5,
        ShapeMarker::Star => 6,
    }
}

/// Two different markers never share a shader id, every id is at most 6,
/// and only `Plain` has id 0.
pub proof fn shader_id_is_injective(a: ShapeMarker, b: ShapeMarker)
    ensures
        spec_shader_id(a) == spec_shader_id(b) ==> a == b,
        spec_shader_id(a) <= 6,
        spec_shader_id(a) == 0 <==> a == ShapeMarker::Plain,
{
}

/// A filled axis-aligned rectangle: top-left corner and size in pixels.
#[derive(Clone, Copy, PartialEq, Eq, Structural, Debug)]
pub struct Rect {
    pub x: u32,
    pub y: u32,
    pub w: u32,
    pub h: u32,
}

pub open spec fn rect(x: int, y: int, w: u32, h: u32) -> Rect {
    Rect { x: x as u32, y: y as u32, w, h }
}

/// `a - b`, floored at zero, as `u32::saturating_sub` computes it.
pub open spec fn sat_sub(a: u32, b: u32) -> int {
    if a >= b { a - b } else { 0 }
}

/// The rectangles, in drawing order, that make up a marker centred on
/// `(x, y)`.
pub open spec fn marker_rects(x: u32, y: u32, m: ShapeMarker) -> Seq<Rect> {
    match m {
        ShapeMarker::Plain => seq![],
        ShapeMarker::Square => seq![rect(sat_sub(x, 3), sat_sub(y, 3), 6, 6)],
        ShapeMarker::Dot => seq![rect(sat_sub(x, 1), sat_sub(y, 1), 2, 2)],
        ShapeMarker::Cross => seq![
            rect(sat_sub(x, 4), sat_sub(y, 1), 8, 2),
            rect(sat_sub(x, 1), sat_sub(y, 4), 2, 8),
        ],
        ShapeMarker::Rhombus => seq![rect(sat_sub(x, 2), sat_sub(y, 2), 4, 4)],
        ShapeMarker::Triangle => seq![
            rect(sat_sub(x, 3), y + 2, 7, 2),
            rect(sat_sub(x, 2), y as int, 5, 2),
            rect(sat_sub(x, 1), sat_sub(y, 2), 3, 2),
        ],
        ShapeMarker::Star => seq![
            rect(sat_sub(x, 2), sat_sub(y, 2), 5, 5),
            rect(sat_sub(x, 4), sat_sub(y, 1), 9, 3),
            rect(sat_sub(x, 1), sat_sub(y, 4), 3, 9),
        ],
    }
}

/// The rectangles of a marker centred on `(x, y)`, in drawing order.
pub fn marker_shape(x: u32, y: u32, m: ShapeMarker) -> (rs: Vec<Rect>)
    requires
        m == ShapeMarker::Triangle ==> y + 2 <= u32::MAX,
    ensures
        rs@ == marker_rects(x, y, m),
{
    let mut rs: Vec<Rect> = Vec::new();
    match m {
        ShapeMarker::Plain => {},
        ShapeMarker::Square => {
            rs.push(Rect { x: x.saturating_sub(3), y: y.saturating_sub(3), w: 6, h: 6 });
        },
        ShapeMarker::Dot => {
            rs.push(Rect { x: x.saturating_sub(1), y: y.saturating_sub(1), w: 2, h: 2 });
        },
        ShapeMarker::Cross => {
            rs.push(Rect { x: x.saturating_sub(4), y: y.saturating_sub(1), w: 8, h: 2 });
            rs.push(Rect { x: x.saturating_sub(1), y: y.saturating_sub(4), w: 2, h: 8 });
        },
        ShapeMarker::Rhombus => {
            rs.push(Rect { x: x.saturating_sub(2), y: y.saturating_sub(2), w: 4, h: 4 });
        },
        ShapeMarker::Triangle => {
            rs.push(Rect { x: x.saturating_sub(3), y: y + 2, w: 7, h: 2 });
            rs.push(Rect { x: x.saturating_sub(2), y: y, w: 5, h: 2 });
            rs.push(Rect { x: x.saturating_sub(1), y: y.saturating_sub(2), w: 3, h: 2 });
        },
        ShapeMarker::Star => {
            rs.push(Rect { x: x.saturating_sub(2), y: y.saturating_sub(2), w: 5, h: 5 });
            rs.push(Rect { x: x.saturating_sub(4), y: y.saturating_sub(1), w: 9, h: 3 });
            rs.push(Rect { x: x.saturating_sub(1), y: y.saturating_sub(4), w: 3, h: 9 });
        },
    }
    assert(rs@ =~= marker_rects(x, y, m));
    rs
}

/// A marker centred on `(x, y)` can be drawn without overflow: the
/// triangle's lowest bar sits at `y + 2`, and every rectangle's right and
/// bottom edges stay within `u32`.
pub open spec fn marker_drawable(x: u32, y: u32, m: ShapeMarker) -> bool {
    &&& (m == ShapeMarker::Triangle ==> y + 2 <= u32::MAX)
    &&& forall|i: int|
        0 <= i < marker_rects(x, y, m).len() ==> {
            let r = #[trigger] marker_rects(x, y, m)[i];
            &&& r.x + r.w <= u32::MAX
            &&& r.y + r.h <= u32::MAX
        }
}

/// Every rectangle of a marker is non-empty.
pub proof fn marker_rects_nonempty(x: u32, y: u32, m: ShapeMarker, i: int)
    requires
        0 <= i < marker_rects(x, y, m).len(),
    ensures
        marker_rects(x, y, m)[i].w > 0,
        marker_rects(x, y, m)[i].h > 0,
{
}

/// Away from the far edges of `u32`, every marker can be drawn.
pub proof fn marker_drawable_when_small(x: u32, y: u32, m: ShapeMarker)
    requires
        x + 5 <= u32::MAX,
        y + 5 <= u32::MAX,
    ensures
        marker_drawable(x, y, m),
{
}

/// Every rectangle of a marker is non-empty and, away from the top and left
/// edges, lies in the 9 by 9 box centred on the marker's point: a marker
/// never reaches more than 4 pixels from its centre.
pub proof fn marker_fits_in_box(x: u32, y: u32, m: ShapeMarker, i: int)
    requires
        4 <= x,
        4 <= y,
        y + 2 <= u32::MAX,
        0 <= i < marker_rects(x, y, m).len(),
    ensures
        ({
            let r = marker_rects(x, y, m)[i];
            &&& r.w > 0 && r.h > 0
            &&& x - 4 <= r.x
            &&& r.x + r.w <= x + 5
            &&& y - 4 <= r.y
            &&& r.y + r.h <= y + 5
        }),
{
}

} // verus!
