//! Software rasterisation of one frame of the CPU window: background,
//! playing field, balls with their markers, bottom panel, status text dots,
//! and the copy into the frame buffer.

use crate::canvas::{
    disc_painted, in_rect, paint_rect, paint_rects, spec_pack_rgb, Canvas, Rgb8, canvas_height,
    canvas_pixels, canvas_width,
};
use crate::color::{contrast_color, is_bright, spec_contrast};
use crate::layout::{fits_i32, PANEL_HEIGHT};
use crate::marker::{marker_drawable, marker_drawable_when_small, marker_rects, marker_shape, Rect, ShapeMarker};
use vstd::prelude::*;

verus! {

/// Colour of the playing field.
pub open spec fn field_color() -> Rgb8 {
    (40, 40, 40)
}

/// Colour of the bottom panel.
pub open spec fn panel_color() -> Rgb8 {
    (15, 15, 15)
}

/// A ball as the rasteriser sees it: centre and radius rounded to whole
/// pixels, its colour and its marker.
#[derive(Clone, Copy, Debug)]
pub struct Sprite {
    pub cx: i32,
    pub cy: i32,
    pub r: i32,
    pub color: Rgb8,
    pub marker: ShapeMarker,
}

/// The playing field's edges in whole pixels: a ball is drawn only when it
/// lies within `left <= x < right` and `top <= y < bottom`.
#[derive(Clone, Copy, PartialEq, Eq, Structural, Debug)]
pub struct FieldBounds {
    pub left: i32,
    pub right: i32,
    pub top: i32,
    pub bottom: i32,
}

/// The bound checks of `safe_circle` run without overflow; they stop at the
/// first check that fails.
pub open spec fn safe_circle_defined(cx: i32, cy: i32, r: i32, b: FieldBounds) -> bool {
    &&& fits_i32(cx - r)
    &&& (cx - r >= b.left ==> {
        &&& fits_i32(cx + r)
        &&& (cx + r < b.right ==> {
            &&& fits_i32(cy - r)
            &&& (cy - r >= b.top ==> fits_i32(cy + r))
        })
    })
}

/// Where a ball of radius `r` centred on `(cx, cy)` is drawn: nowhere when
/// any part of it would leave the field, else at its centre and radius
/// taken as unsigned pixels.
pub open spec fn spec_safe_circle(cx: i32, cy: i32, r: i32, b: FieldBounds) -> Option<
    (u32, u32, u32),
> {
    if cx - r < b.left || cx + r >= b.right || cy - r < b.top || cy + r >= b.bottom {
        None
    } else {
        Some((cx as u32, cy as u32, r as u32))
    }
}

/// The placement of a ball that lies wholly inside the field.
pub fn safe_circle(cx: i32, cy: i32, r: i32, b: FieldBounds) -> (res: Option<(u32, u32, u32)>)
    requires
        safe_circle_defined(cx, cy, r, b),
    ensures
        res == spec_safe_circle(cx, cy, r, b),
{
    if cx - r < b.left || cx + r >= b.right || cy - r < b.top || cy + r >= b.bottom {
        None
    } else {
        Some((cx as u32, cy as u32, r as u32))
    }
}

/// A drawn ball lies wholly inside the field bounds it was checked against.
pub proof fn safe_circle_inside(cx: i32, cy: i32, r: i32, b: FieldBounds)
    requires
        spec_safe_circle(cx, cy, r, b) is Some,
    ensures
        b.left <= cx - r,
        cx + r < b.right,
        b.top <= cy - r,
        cy + r < b.bottom,
{
}

/// A drawn ball's marker stays inside the field: when the ball lies wholly
/// inside a field that starts at or right of the origin and its radius is
/// at least 4 (balls never shrink below that), every rectangle of its
/// marker lies within the field's edges.
pub proof fn marker_stays_in_field(s: Sprite, b: FieldBounds, i: int)
    requires
        0 <= b.left,
        0 <= b.top,
        4 <= s.r,
        spec_safe_circle(s.cx, s.cy, s.r, b) is Some,
        0 <= i < marker_rects(s.cx as u32, s.cy as u32, s.marker).len(),
    ensures
        ({
            let r = marker_rects(s.cx as u32, s.cy as u32, s.marker)[i];
            &&& b.left <= r.x
            &&& r.x + r.w <= b.right
            &&& b.top <= r.y
            &&& r.y + r.h <= b.bottom
        }),
{
    crate::marker::marker_fits_in_box(s.cx as u32, s.cy as u32, s.marker, i);
}

/// Pixel `(px, py)` lies where drawing ball `s` may paint: in the box of
/// its disc or in a rectangle of its marker, and only when the ball is
/// drawn at all.
pub open spec fn sprite_touches(s: Sprite, b: FieldBounds, px: int, py: int) -> bool {
    match spec_safe_circle(s.cx, s.cy, s.r, b) {
        None => false,
        Some((x, y, r)) => {
            ||| (x - r <= px <= x + r && y - r <= py <= y + r)
            ||| exists|j: int|
                0 <= j < marker_rects(x, y, s.marker).len() && in_rect(
                    #[trigger] marker_rects(x, y, s.marker)[j],
                    px,
                    py,
                )
        },
    }
}

/// Pixel `(px, py)` lies in a rectangle of the marker of ball `s`, and the
/// ball is drawn.
pub open spec fn in_marker(s: Sprite, b: FieldBounds, px: int, py: int) -> bool {
    match spec_safe_circle(s.cx, s.cy, s.r, b) {
        None => false,
        Some((x, y, r)) => exists|j: int|
            0 <= j < marker_rects(x, y, s.marker).len() && in_rect(
                #[trigger] marker_rects(x, y, s.marker)[j],
                px,
                py,
            ),
    }
}

/// A pixel inside any of the filled rectangles ends up in the fill colour.
pub proof fn paint_rects_covered(pixels: Seq<Rgb8>, width: nat, rs: Seq<Rect>, c: Rgb8, i: int, j: int)
    requires
        0 < width,
        0 <= i < pixels.len(),
        0 <= j < rs.len(),
        in_rect(rs[j], i % (width as int), i / (width as int)),
    ensures
        paint_rects(pixels, width, rs, c)[i] == c,
    decreases rs.len(),
{
    paint_rects_len(pixels, width, rs, c);
    if j < rs.len() - 1 {
        paint_rects_covered(pixels, width, rs.drop_last(), c, i, j);
        paint_rects_len(pixels, width, rs.drop_last(), c);
    }
}

/// Filling rectangles keeps the number of pixels.
pub proof fn paint_rects_len(pixels: Seq<Rgb8>, width: nat, rs: Seq<Rect>, c: Rgb8)
    ensures
        paint_rects(pixels, width, rs, c).len() == pixels.len(),
    decreases rs.len(),
{
    if rs.len() > 0 {
        paint_rects_len(pixels, width, rs.drop_last(), c);
    }
}

/// Filling rectangles changes only pixels inside one of them, and keeps the
/// number of pixels.
pub proof fn paint_rects_frame(pixels: Seq<Rgb8>, width: nat, rs: Seq<Rect>, c: Rgb8, i: int)
    requires
        0 < width,
        0 <= i < pixels.len(),
    ensures
        paint_rects(pixels, width, rs, c).len() == pixels.len(),
        paint_rects(pixels, width, rs, c)[i] != pixels[i] ==> exists|j: int|
            0 <= j < rs.len() && in_rect(#[trigger] rs[j], i % (width as int), i / (width as int)),
    decreases rs.len(),
{
    if rs.len() > 0 {
        paint_rects_frame(pixels, width, rs.drop_last(), c, i);
        let prev = paint_rects(pixels, width, rs.drop_last(), c);
        if paint_rects(pixels, width, rs, c)[i] != pixels[i] {
            if in_rect(rs.last(), i % (width as int), i / (width as int)) {
                assert(in_rect(rs[rs.len() - 1], i % (width as int), i / (width as int)));
            } else {
                assert(prev[i] != pixels[i]);
                let j = choose|j: int|
                    0 <= j < rs.drop_last().len() && in_rect(
                        #[trigger] rs.drop_last()[j],
                        i % (width as int),
                        i / (width as int),
                    );
                assert(rs[j] == rs.drop_last()[j]);
            }
        }
    }
}

/// A drawn ball that is at least 4 pixels in radius, in a field that starts
/// at or right of the origin, may paint only pixels of the field: its disc
/// box and its marker both lie within the field's edges.
pub proof fn sprite_stays_in_field(s: Sprite, b: FieldBounds, px: int, py: int)
    requires
        0 <= b.left,
        0 <= b.top,
        4 <= s.r,
        sprite_touches(s, b, px, py),
    ensures
        b.left <= px < b.right,
        b.top <= py < b.bottom,
{
    if !(s.cx - s.r <= px <= s.cx + s.r && s.cy - s.r <= py <= s.cy + s.r) {
        let x = s.cx as u32;
        let y = s.cy as u32;
        let j = choose|j: int|
            0 <= j < marker_rects(x, y, s.marker).len() && in_rect(
                #[trigger] marker_rects(x, y, s.marker)[j],
                px,
                py,
            );
        marker_stays_in_field(s, b, j);
    }
}

/// A ball that is not drawn (it does not fit wholly inside the field) has no
/// effect on the frame: two lists of balls that differ only in such a ball
/// at one position give the same canvas.
pub proof fn undrawn_ball_changes_nothing(
    pixels: Seq<Rgb8>,
    cw: nat,
    width: u32,
    height: u32,
    field: Rect,
    b: FieldBounds,
    ss: Seq<Sprite>,
    ss2: Seq<Sprite>,
    bg: Rgb8,
    k: int,
)
    requires
        ss.len() == ss2.len(),
        0 <= k < ss.len(),
        forall|j: int| 0 <= j < ss.len() && j != k ==> ss[j] == ss2[j],
        spec_safe_circle(ss[k].cx, ss[k].cy, ss[k].r, b) is None,
        spec_safe_circle(ss2[k].cx, ss2[k].cy, ss2[k].r, b) is None,
    ensures
        scene_frame(pixels, cw, width, height, field, b, ss, bg) == scene_frame(
            pixels,
            cw,
            width,
            height,
            field,
            b,
            ss2,
            bg,
        ),
{
    let base = paint_rect(paint_rect(pixels, cw, window_rect(width, height), bg), cw, field, field_color());
    undrawn_sprites_agree(base, cw, b, ss, ss2, k);
}

/// The balls are drawn in list order and every one of them is drawn: the
/// frame of a list with one more ball at the end is the frame of the
/// shorter list with that ball painted over it, under the panel.
pub proof fn frame_with_appended_ball(
    pixels: Seq<Rgb8>,
    cw: nat,
    width: u32,
    height: u32,
    field: Rect,
    b: FieldBounds,
    ss: Seq<Sprite>,
    s: Sprite,
    bg: Rgb8,
)
    ensures
        scene_frame(pixels, cw, width, height, field, b, ss.push(s), bg) == paint_rect(
            paint_sprite(
                paint_sprites(
                    paint_rect(
                        paint_rect(pixels, cw, window_rect(width, height), bg),
                        cw,
                        field,
                        field_color(),
                    ),
                    cw,
                    ss,
                    b,
                ),
                cw,
                s,
                b,
            ),
            cw,
            panel_rect(width, height),
            panel_color(),
        ),
        scene_frame(pixels, cw, width, height, field, b, Seq::empty(), bg) == paint_rect(
            paint_rect(paint_rect(pixels, cw, window_rect(width, height), bg), cw, field, field_color()),
            cw,
            panel_rect(width, height),
            panel_color(),
        ),
{
    assert(ss.push(s).drop_last() =~= ss);
}

/// The last ball of the list shows on top of the frame: every pixel of its
/// marker that the panel does not cover has the marker's contrast colour,
/// whatever the balls before it painted.
pub proof fn last_ball_is_on_top(
    pixels: Seq<Rgb8>,
    cw: nat,
    width: u32,
    height: u32,
    field: Rect,
    b: FieldBounds,
    ss: Seq<Sprite>,
    s: Sprite,
    bg: Rgb8,
    i: int,
)
    requires
        0 < cw,
        0 <= i < scene_frame(pixels, cw, width, height, field, b, ss.push(s), bg).len(),
        in_marker(s, b, i % (cw as int), i / (cw as int)),
        !in_rect(panel_rect(width, height), i % (cw as int), i / (cw as int)),
    ensures
        scene_frame(pixels, cw, width, height, field, b, ss.push(s), bg)[i] == spec_contrast(
            s.color,
        ),
{
    frame_with_appended_ball(pixels, cw, width, height, field, b, ss, s, bg);
    let base = paint_rect(
        paint_rect(pixels, cw, window_rect(width, height), bg),
        cw,
        field,
        field_color(),
    );
    let before = paint_sprites(base, cw, ss, b);
    let (x, y, r) = spec_safe_circle(s.cx, s.cy, s.r, b)->0;
    let d = disc_painted(before, cw, x, y, r, s.color);
    paint_rects_len(d, cw, marker_rects(x, y, s.marker), spec_contrast(s.color));
    let j = choose|j: int|
        0 <= j < marker_rects(x, y, s.marker).len() && in_rect(
            #[trigger] marker_rects(x, y, s.marker)[j],
            i % (cw as int),
            i / (cw as int),
        );
    paint_rects_covered(d, cw, marker_rects(x, y, s.marker), spec_contrast(s.color), i, j);
}

/// A drawn ball is painted with its own colours: the disc in the ball's
/// colour `(r, g, b)` as stored, then the marker in the contrast colour of
/// that ball colour; a ball that does not fit leaves the canvas as it was.
pub proof fn ball_is_painted_in_its_colours(pixels: Seq<Rgb8>, w: nat, s: Sprite, b: FieldBounds)
    ensures
        spec_safe_circle(s.cx, s.cy, s.r, b) matches Some((x, y, r)) ==> paint_sprite(
            pixels,
            w,
            s,
            b,
        ) == paint_rects(
            disc_painted(pixels, w, x, y, r, (s.color.0, s.color.1, s.color.2)),
            w,
            marker_rects(x, y, s.marker),
            if is_bright(s.color) { (0u8, 0u8, 0u8) } else { (255u8, 255u8, 255u8) },
        ),
        spec_safe_circle(s.cx, s.cy, s.r, b) is None ==> paint_sprite(pixels, w, s, b) == pixels,
{
}

proof fn undrawn_sprites_agree(
    pixels: Seq<Rgb8>,
    cw: nat,
    b: FieldBounds,
    ss: Seq<Sprite>,
    ss2: Seq<Sprite>,
    k: int,
)
    requires
        ss.len() == ss2.len(),
        0 <= k < ss.len(),
        forall|j: int| 0 <= j < ss.len() && j != k ==> ss[j] == ss2[j],
        spec_safe_circle(ss[k].cx, ss[k].cy, ss[k].r, b) is None,
        spec_safe_circle(ss2[k].cx, ss2[k].cy, ss2[k].r, b) is None,
    ensures
        paint_sprites(pixels, cw, ss, b) == paint_sprites(pixels, cw, ss2, b),
    decreases ss.len(),
{
    if k == ss.len() - 1 {
        assert(ss.drop_last() =~= ss2.drop_last());
    } else {
        undrawn_sprites_agree(pixels, cw, b, ss.drop_last(), ss2.drop_last(), k);
        assert(ss.last() == ss2.last());
    }
}

/// A sprite can be drawn without a panic: its bound checks do not overflow
/// and, when it is drawn, its radius is positive and no larger than its
/// centre coordinates.
pub open spec fn sprite_ok(s: Sprite, b: FieldBounds) -> bool {
    &&& safe_circle_defined(s.cx, s.cy, s.r, b)
    &&& (spec_safe_circle(s.cx, s.cy, s.r, b) is Some ==> {
        &&& 0 < s.r
        &&& s.r <= s.cx
        &&& s.r <= s.cy
    })
}

/// The canvas after one ball: its disc, then its marker in the contrasting
/// colour, or nothing when the ball is not wholly inside the field.
pub open spec fn paint_sprite(pixels: Seq<Rgb8>, width: nat, s: Sprite, b: FieldBounds) -> Seq<
    Rgb8,
> {
    match spec_safe_circle(s.cx, s.cy, s.r, b) {
        None => pixels,
        Some((x, y, r)) => paint_rects(
            disc_painted(pixels, width, x, y, r, s.color),
            width,
            marker_rects(x, y, s.marker),
            spec_contrast(s.color),
        ),
    }
}

/// The canvas after the balls of `ss`, in order.
pub open spec fn paint_sprites(pixels: Seq<Rgb8>, width: nat, ss: Seq<Sprite>, b: FieldBounds) -> Seq<
    Rgb8,
>
    decreases ss.len(),
{
    if ss.len() == 0 {
        pixels
    } else {
        paint_sprite(paint_sprites(pixels, width, ss.drop_last(), b), width, ss.last(), b)
    }
}

/// The bottom panel of a window of the given size.
pub open spec fn panel_rect(width: u32, height: u32) -> Rect {
    Rect { x: 0, y: (height - PANEL_HEIGHT) as u32, w: width, h: PANEL_HEIGHT }
}

/// The whole-window rectangle.
pub open spec fn window_rect(width: u32, height: u32) -> Rect {
    Rect { x: 0, y: 0, w: width, h: height }
}

/// A frame of the CPU window: background over the whole window, the field,
/// the balls, and the panel on top.
pub open spec fn scene_frame(
    pixels: Seq<Rgb8>,
    cw: nat,
    width: u32,
    height: u32,
    field: Rect,
    b: FieldBounds,
    ss: Seq<Sprite>,
    bg: Rgb8,
) -> Seq<Rgb8> {
    paint_rect(
        paint_sprites(
            paint_rect(paint_rect(pixels, cw, window_rect(width, height), bg), cw, field, field_color()),
            cw,
            ss,
            b,
        ),
        cw,
        panel_rect(width, height),
        panel_color(),
    )
}

/// The panel rows are painted last, so after a frame every pixel of the
/// bottom `PANEL_HEIGHT` rows, left of the window's right edge, has the
/// panel colour, whatever the balls or the field covered.
pub proof fn panel_is_on_top(
    pixels: Seq<Rgb8>,
    cw: nat,
    width: u32,
    height: u32,
    field: Rect,
    b: FieldBounds,
    ss: Seq<Sprite>,
    bg: Rgb8,
    i: int,
)
    requires
        0 < cw,
        PANEL_HEIGHT <= height,
        0 <= i < scene_frame(pixels, cw, width, height, field, b, ss, bg).len(),
        i % (cw as int) < width,
        height - PANEL_HEIGHT <= i / (cw as int) < height,
    ensures
        scene_frame(pixels, cw, width, height, field, b, ss, bg)[i] == panel_color(),
{
}

/// A status-text dot can be placed without overflow.
pub open spec fn status_dot_defined(px: i32, py: i32, on: bool, width: u32, height: u32) -> bool {
    (on && px >= 0 && py >= 0) ==> {
        &&& px * 2 + 10 <= u32::MAX
        &&& PANEL_HEIGHT <= height
        &&& py * 2 + (height - PANEL_HEIGHT) <= u32::MAX
        &&& (px * 2 + 10 + 1 < width ==> py * 2 + (height - PANEL_HEIGHT) + 1 <= u32::MAX)
    }
}

/// Where a lit pixel `(px, py)` of the 6 by 12 status font lands on a
/// window of the given size: scaled by two, 10 pixels from the left edge,
/// starting at the top of the panel, as a 2 by 2 dot, dropped when the dot
/// would cross the right or bottom edge.
pub open spec fn status_dot(px: i32, py: i32, on: bool, width: u32, height: u32) -> Option<
    (u32, u32),
> {
    if on && px >= 0 && py >= 0 {
        let bx = px * 2 + 10;
        let by = py * 2 + (height - PANEL_HEIGHT);
        if bx + 1 < width && by + 1 < height {
            Some((bx as u32, by as u32))
        } else {
            None
        }
    } else {
        None
    }
}

/// Status text never leaves the panel: every dot lies within the bottom
/// `PANEL_HEIGHT` rows and inside the window.
pub proof fn status_dot_in_panel(px: i32, py: i32, on: bool, width: u32, height: u32)
    requires
        status_dot_defined(px, py, on, width, height),
        status_dot(px, py, on, width, height) is Some,
    ensures
        ({
            let (x, y) = status_dot(px, py, on, width, height)->0;
            &&& height - PANEL_HEIGHT <= y
            &&& y + 2 <= height
            &&& 10 <= x
            &&& x + 2 <= width
        }),
{
}

/// Every lit font pixel at a non-negative point is drawn exactly where the
/// doubling puts it, as long as its 2 by 2 dot fits in the window; any other
/// pixel is dropped.
pub proof fn status_dot_exact(px: i32, py: i32, on: bool, width: u32, height: u32)
    requires
        PANEL_HEIGHT <= height,
    ensures
        on && px >= 0 && py >= 0 && px * 2 + 10 + 1 < width && py * 2 + (height - 24) + 1 < height
            ==> status_dot(px, py, on, width, height) == Some(
            ((px * 2 + 10) as u32, (py * 2 + height - 24) as u32),
        ),
        status_dot(px, py, on, width, height) is Some ==> on && px >= 0 && py >= 0 && px * 2 + 10
            + 1 < width && py * 2 + (height - 24) + 1 < height,
{
}

/// Whether `(x, y)` lies on a canvas of the given sides, compared as
/// `ril` glyph drawing compares it, with the sides cast to `i32`.
pub open spec fn on_canvas(x: i32, y: i32, w: u32, h: u32) -> bool {
    x >= 0 && x < (w as i32) && y >= 0 && y < (h as i32)
}

impl Canvas {
    /// A black canvas of `width` by `height` pixels, as a window's canvas is
    /// made when the window opens or is resized.
    pub fn blank(width: u32, height: u32) -> (c: Canvas)
        requires
            0 < width,
            0 < height,
            width * height <= u32::MAX,
        ensures
            canvas_width(c) == width,
            canvas_height(c) == height,
            canvas_pixels(c) == Seq::new((width * height) as nat, |_i: int| (0u8, 0u8, 0u8)),
    {
        Canvas::filled(width, height, (0, 0, 0))
    }

    /// Width of the canvas in pixels.
    pub fn width(&self) -> (w: u32)
        ensures
            w == canvas_width(*self),
            0 < w,
    {
        self.dims().0
    }

    /// Height of the canvas in pixels.
    pub fn height(&self) -> (h: u32)
        ensures
            h == canvas_height(*self),
            0 < h,
            canvas_pixels(*self).len() == canvas_width(*self) * h,
    {
        self.dims().1
    }

    /// Draws the marker `m` centred on `(x, y)` in colour `c`.
    pub fn draw_marker(&mut self, x: u32, y: u32, m: ShapeMarker, c: Rgb8)
        requires
            marker_drawable(x, y, m),
        ensures
            canvas_width(*final(self)) == canvas_width(*old(self)),
            canvas_height(*final(self)) == canvas_height(*old(self)),
            canvas_pixels(*final(self)) == paint_rects(
                canvas_pixels(*old(self)),
                canvas_width(*old(self)),
                marker_rects(x, y, m),
                c,
            ),
    {
        let rs = marker_shape(x, y, m);
        let ghost rs_spec = marker_rects(x, y, m);
        let mut i: usize = 0;
        while i < rs.len()
            invariant
                i <= rs.len(),
                rs@ == rs_spec,
                rs_spec == marker_rects(x, y, m),
                marker_drawable(x, y, m),
                canvas_width(*self) == canvas_width(*old(self)),
                canvas_height(*self) == canvas_height(*old(self)),
                canvas_pixels(*self) == paint_rects(
                    canvas_pixels(*old(self)),
                    canvas_width(*old(self)),
                    rs_spec.take(i as int),
                    c,
                ),
            decreases rs.len() - i,
        {
            let r = rs[i];
            proof {
                crate::marker::marker_rects_nonempty(x, y, m, i as int);
            }
            self.fill_rect(r, c);
            assert(rs_spec.take(i + 1).drop_last() =~= rs_spec.take(i as int));
            i = i + 1;
        }
        assert(rs_spec.take(rs.len() as int) =~= rs_spec);
    }

    /// Draws one ball: its disc, then its marker in the contrasting colour;
    /// a ball that is not wholly inside the field is not drawn.
    pub fn draw_sprite(&mut self, s: Sprite, b: FieldBounds)
        requires
            sprite_ok(s, b),
        ensures
            canvas_width(*final(self)) == canvas_width(*old(self)),
            canvas_height(*final(self)) == canvas_height(*old(self)),
            canvas_pixels(*final(self)) == paint_sprite(
                canvas_pixels(*old(self)),
                canvas_width(*old(self)),
                s,
                b,
            ),
            canvas_pixels(*final(self)).len() == canvas_pixels(*old(self)).len(),
            forall|i: int|
                0 <= i < canvas_pixels(*final(self)).len() && #[trigger] canvas_pixels(
                    *final(self),
                )[i] != canvas_pixels(*old(self))[i] ==> sprite_touches(
                    s,
                    b,
                    i % (canvas_width(*old(self)) as int),
                    i / (canvas_width(*old(self)) as int),
                ),
            forall|i: int|
                0 <= i < canvas_pixels(*final(self)).len() && in_marker(
                    s,
                    b,
                    i % (canvas_width(*old(self)) as int),
                    i / (canvas_width(*old(self)) as int),
                ) ==> #[trigger] canvas_pixels(*final(self))[i] == spec_contrast(s.color),
            forall|i: int|
                0 <= i < canvas_pixels(*final(self)).len() && #[trigger] canvas_pixels(
                    *final(self),
                )[i] != canvas_pixels(*old(self))[i] && !in_marker(
                    s,
                    b,
                    i % (canvas_width(*old(self)) as int),
                    i / (canvas_width(*old(self)) as int),
                ) ==> canvas_pixels(*final(self))[i] == s.color,
    {
        let ghost w = canvas_width(*old(self));
        let ghost p0 = canvas_pixels(*old(self));
        let _ = self.width();
        match safe_circle(s.cx, s.cy, s.r, b) {
            None => {},
            Some((x, y, r)) => {
                self.fill_disc(x, y, r, s.color);
                let ghost p1 = canvas_pixels(*self);
                proof {
                    marker_drawable_when_small(x, y, s.marker);
                }
                let m_color = contrast_color(s.color);
                self.draw_marker(x, y, s.marker, m_color);
                proof {
                    paint_rects_len(p1, w, marker_rects(x, y, s.marker), m_color);
                    assert forall|i: int|
                        0 <= i < canvas_pixels(*self).len() && #[trigger] canvas_pixels(
                            *self,
                        )[i] != p0[i] implies sprite_touches(
                        s,
                        b,
                        i % (w as int),
                        i / (w as int),
                    ) by {
                        paint_rects_frame(p1, w, marker_rects(x, y, s.marker), m_color, i);
                        if canvas_pixels(*self)[i] == p1[i] {
                            assert(p1[i] != p0[i]);
                        } else {
                            let j = choose|j: int|
                                0 <= j < marker_rects(x, y, s.marker).len() && in_rect(
                                    #[trigger] marker_rects(x, y, s.marker)[j],
                                    i % (w as int),
                                    i / (w as int),
                                );
                        }
                    }
                    assert forall|i: int|
                        0 <= i < canvas_pixels(*self).len() && in_marker(
                            s,
                            b,
                            i % (w as int),
                            i / (w as int),
                        ) implies #[trigger] canvas_pixels(*self)[i] == spec_contrast(s.color) by {
                        let j = choose|j: int|
                            0 <= j < marker_rects(x, y, s.marker).len() && in_rect(
                                #[trigger] marker_rects(x, y, s.marker)[j],
                                i % (w as int),
                                i / (w as int),
                            );
                        paint_rects_covered(p1, w, marker_rects(x, y, s.marker), m_color, i, j);
                    }
                    assert forall|i: int|
                        0 <= i < canvas_pixels(*self).len() && #[trigger] canvas_pixels(*self)[i]
                            != p0[i] && !in_marker(
                            s,
                            b,
                            i % (w as int),
                            i / (w as int),
                        ) implies canvas_pixels(*self)[i] == s.color by {
                        paint_rects_frame(p1, w, marker_rects(x, y, s.marker), m_color, i);
                        assert(canvas_pixels(*self)[i] == p1[i]);
                        assert(p1[i] != p0[i]);
                    }
                }
            },
        }
    }

    /// Draws a frame of the CPU window: the background over the whole
    /// window, the playing field, every ball of `sprites` in order, and the
    /// bottom panel.
    pub fn draw_scene(
        &mut self,
        width: u32,
        height: u32,
        field: Rect,
        bounds: FieldBounds,
        sprites: &Vec<Sprite>,
        bg: Rgb8,
    )
        requires
            PANEL_HEIGHT <= height,
            field.w > 0 || field.h > 0,
            field.x + field.w <= u32::MAX,
            field.y + field.h <= u32::MAX,
            forall|k: int| 0 <= k < sprites@.len() ==> sprite_ok(#[trigger] sprites@[k], bounds),
        ensures
            canvas_width(*final(self)) == canvas_width(*old(self)),
            canvas_height(*final(self)) == canvas_height(*old(self)),
            canvas_pixels(*final(self)) == scene_frame(
                canvas_pixels(*old(self)),
                canvas_width(*old(self)),
                width,
                height,
                field,
                bounds,
                sprites@,
                bg,
            ),
    {
        let ghost cw = canvas_width(*old(self));
        self.fill_rect(Rect { x: 0, y: 0, w: width, h: height }, bg);
        self.fill_rect(field, (40, 40, 40));
        let ghost base = canvas_pixels(*self);
        let mut i: usize = 0;
        while i < sprites.len()
            invariant
                i <= sprites@.len(),
                cw == canvas_width(*old(self)),
                canvas_width(*self) == cw,
                canvas_height(*self) == canvas_height(*old(self)),
                forall|k: int| 0 <= k < sprites@.len() ==> sprite_ok(#[trigger] sprites@[k], bounds),
                canvas_pixels(*self) == paint_sprites(base, cw, sprites@.take(i as int), bounds),
            decreases sprites.len() - i,
        {
            self.draw_sprite(sprites[i], bounds);
            assert(sprites@.take(i + 1).drop_last() =~= sprites@.take(i as int));
            i = i + 1;
        }
        assert(sprites@.take(sprites.len() as int) =~= sprites@);
        let panel_y = height - PANEL_HEIGHT;
        self.fill_rect(Rect { x: 0, y: panel_y, w: width, h: PANEL_HEIGHT }, (15, 15, 15));
    }

    /// Draws one pixel of the status font on the panel: a lit pixel of the
    /// font becomes a 2 by 2 dot where `status_dot` places it.
    pub fn draw_status_dot(&mut self, px: i32, py: i32, on: bool, width: u32, height: u32, c: Rgb8)
        requires
            status_dot_defined(px, py, on, width, height),
        ensures
            canvas_width(*final(self)) == canvas_width(*old(self)),
            canvas_height(*final(self)) == canvas_height(*old(self)),
            canvas_pixels(*final(self)) == match status_dot(px, py, on, width, height) {
                None => canvas_pixels(*old(self)),
                Some((x, y)) => paint_rect(
                    canvas_pixels(*old(self)),
                    canvas_width(*old(self)),
                    Rect { x, y, w: 2, h: 2 },
                    c,
                ),
            },
    {
        if on && px >= 0 && py >= 0 {
            let base_x = (px as u32) * 2 + 10;
            let base_y = (py as u32) * 2 + (height - PANEL_HEIGHT);
            if base_x + 1 < width && base_y + 1 < height {
                self.fill_rect(Rect { x: base_x, y: base_y, w: 2, h: 2 }, c);
            }
        }
    }

    /// Sets one glyph pixel when it lies on the canvas; points off the
    /// canvas are ignored.
    pub fn plot_clipped(&mut self, x: i32, y: i32, c: Rgb8)
        ensures
            canvas_width(*final(self)) == canvas_width(*old(self)),
            canvas_height(*final(self)) == canvas_height(*old(self)),
            canvas_pixels(*final(self)) == if on_canvas(
                x,
                y,
                canvas_width(*old(self)) as u32,
                canvas_height(*old(self)) as u32,
            ) {
                canvas_pixels(*old(self)).update(y * canvas_width(*old(self)) + x, c)
            } else {
                canvas_pixels(*old(self))
            },
    {
        let (w, h) = self.dims();
        if x >= 0 && x < w as i32 && y >= 0 && y < h as i32 {
            self.set_pixel(x as u32, y as u32, c);
        }
    }

    /// Copies the canvas into a frame buffer of `0x00RRGGBB` words, one per
    /// pixel, in parallel.
    pub fn copy_to_frame(&self, target: &mut [u32])
        requires
            old(target)@.len() <= canvas_pixels(*self).len(),
        ensures
            final(target)@.len() == old(target)@.len(),
            forall|i: int|
                0 <= i < final(target)@.len() ==> final(target)@[i] == spec_pack_rgb(
                    #[trigger] canvas_pixels(*self)[i],
                ),
    {
        self.par_pack_into(target);
    }
}

} // verus!
