//! The drawing surface: a `ril` RGB image, seen by the proofs as its width,
//! its height and the row-major sequence of its pixels.

use crate::marker::Rect;
use rayon::iter::{IndexedParallelIterator, IntoParallelRefMutIterator, ParallelIterator};
use vstd::prelude::*;

verus! {

/// An RGB colour as three 8-bit channels.
pub type Rgb8 = (u8, u8, u8);

/// A drawing surface: a `ril` RGB image that only this module touches, so
/// that it always holds exactly `width * height` pixels. (`ril::Image` is
/// generic over `ril::Pixel`, a trait Verus cannot take as a bound, so the
/// image is held here rather than declared.)
#[verifier::external_body]
pub struct Canvas {
    image: ril::Image<ril::Rgb>,
}

/// The pixels of a canvas, row after row, each as its three channels.
pub uninterp spec fn canvas_pixels(c: Canvas) -> Seq<Rgb8>;

/// The width in pixels that a canvas was made with.
pub uninterp spec fn canvas_width(c: Canvas) -> nat;

/// The height in pixels that a canvas was made with.
pub uninterp spec fn canvas_height(c: Canvas) -> nat;

/// Point `(px, py)` lies in rectangle `r`.
pub open spec fn in_rect(r: Rect, px: int, py: int) -> bool {
    &&& r.x <= px < r.x + r.w
    &&& r.y <= py < r.y + r.h
}

/// The pixels of a canvas of the given width after filling rectangle `r`
/// with colour `c`: a pixel takes `c` when its column and row fall in `r`,
/// and keeps its colour otherwise.
pub open spec fn paint_rect(pixels: Seq<Rgb8>, width: nat, r: Rect, c: Rgb8) -> Seq<Rgb8> {
    Seq::new(
        pixels.len(),
        |i: int| if in_rect(r, i % (width as int), i / (width as int)) { c } else { pixels[i] },
    )
}

/// Filling the rectangles of `rs` one after the other with colour `c`.
pub open spec fn paint_rects(pixels: Seq<Rgb8>, width: nat, rs: Seq<Rect>, c: Rgb8) -> Seq<Rgb8>
    decreases rs.len(),
{
    if rs.len() == 0 {
        pixels
    } else {
        paint_rect(paint_rects(pixels, width, rs.drop_last(), c), width, rs.last(), c)
    }
}

/// What `ril` leaves on a canvas of the given width after it draws a filled
/// circle of radius `r` centred on `(cx, cy)` in colour `c` over `pixels`
/// (a midpoint rasteriser).
pub uninterp spec fn disc_painted(
    pixels: Seq<Rgb8>,
    width: nat,
    cx: u32,
    cy: u32,
    r: u32,
    c: Rgb8,
) -> Seq<Rgb8>;

/// Packs a colour into the `0x00RRGGBB` word that a softbuffer frame holds.
pub open spec fn spec_pack_rgb(c: Rgb8) -> int {
    c.0 * 0x10000 + c.1 * 0x100 + c.2
}

impl Canvas {
    /// `ril::Image::new`: an image of `width` by `height` pixels, all of
    /// colour `c`. It panics on a zero side and, in debug builds, when the
    /// area overflows a `u32`; both are excluded.
    #[verifier::external_body]
    pub(crate) fn filled(width: u32, height: u32, c: Rgb8) -> (canvas: Canvas)
        requires
            0 < width,
            0 < height,
            width * height <= u32::MAX,
        ensures
            canvas_width(canvas) == width,
            canvas_height(canvas) == height,
            canvas_pixels(canvas) == Seq::new((width * height) as nat, |_i: int| c),
    {
        Canvas { image: ril::Image::new(width, height, ril::Rgb::new(c.0, c.1, c.2)) }
    }

    /// `ril::Image::width` and `ril::Image::height`: the sides the canvas
    /// was made with. Every canvas has non-zero sides, an area that fits in
    /// a `u32` and exactly one pixel per cell, since `filled` is the only
    /// way to make one and no method here changes the number of pixels.
    #[verifier::external_body]
    pub(crate) fn dims(&self) -> (wh: (u32, u32))
        ensures
            wh.0 == canvas_width(*self),
            wh.1 == canvas_height(*self),
            0 < wh.0,
            0 < wh.1,
            wh.0 * wh.1 <= u32::MAX,
            canvas_pixels(*self).len() == wh.0 * wh.1,
    {
        (self.image.width(), self.image.height())
    }

    /// `ril::Image::draw` of a `Rectangle` with a solid fill and no border.
    /// For RGB pixels every overlay mode replaces the pixel, and pixels off
    /// the canvas are skipped, so the canvas ends up as `paint_rect` says.
    /// The rectangle's `draw` asserts a non-zero side and adds the size to
    /// the position in `u32`; those inputs are excluded.
    #[verifier::external_body]
    pub(crate) fn fill_rect(&mut self, r: Rect, c: Rgb8)
        requires
            r.w > 0 || r.h > 0,
            r.x + r.w <= u32::MAX,
            r.y + r.h <= u32::MAX,
        ensures
            canvas_width(*final(self)) == canvas_width(*old(self)),
            canvas_height(*final(self)) == canvas_height(*old(self)),
            canvas_pixels(*final(self)) == paint_rect(
                canvas_pixels(*old(self)),
                canvas_width(*old(self)),
                r,
                c,
            ),
    {
        self.image.draw(
            &ril::draw::Rectangle::at(r.x, r.y).with_size(r.w, r.h).with_fill(
                ril::Rgb::new(c.0, c.1, c.2),
            ),
        );
    }

    /// `ril::Image::draw` of `Ellipse::circle(cx, cy, r)` with a solid fill.
    /// The resulting pixels are named by `disc_painted`; the canvas keeps
    /// its sides and its number of pixels. The rasteriser fills spans
    /// `cx - x ..= cx + x` on rows `cy ± y` and `cy ± x` with `x <= y <= r`,
    /// each pixel replaced by colour `c`, so a pixel outside the box
    /// `cx ± r` by `cy ± r` keeps its colour and any pixel that changes
    /// takes colour `c`. Building the circle subtracts the
    /// radius from the centre in `u32`, drawing asserts a non-zero radius,
    /// and the rasteriser adds the radius to the centre in `i32`; those
    /// inputs are excluded.
    #[verifier::external_body]
    pub(crate) fn fill_disc(&mut self, cx: u32, cy: u32, r: u32, c: Rgb8)
        requires
            0 < r,
            r <= cx,
            r <= cy,
            cx + r <= i32::MAX,
            cy + r <= i32::MAX,
        ensures
            canvas_width(*final(self)) == canvas_width(*old(self)),
            canvas_height(*final(self)) == canvas_height(*old(self)),
            canvas_pixels(*final(self)) == disc_painted(
                canvas_pixels(*old(self)),
                canvas_width(*old(self)),
                cx,
                cy,
                r,
                c,
            ),
            canvas_pixels(*final(self)).len() == canvas_pixels(*old(self)).len(),
            forall|i: int|
                0 <= i < canvas_pixels(*final(self)).len() ==> {
                    let w = canvas_width(*old(self)) as int;
                    #[trigger] canvas_pixels(*final(self))[i] == canvas_pixels(*old(self))[i] || (
                    canvas_pixels(*final(self))[i] == c && cx - r <= i % w <= cx + r && cy - r <= i
                        / w <= cy + r)
                },
    {
        self.image.draw(&ril::draw::Ellipse::circle(cx, cy, r).with_fill(ril::Rgb::new(c.0, c.1, c.2)));
    }

    /// `ril::Image::set_pixel`: stores colour `c` at column `x`, row `y`.
    /// It indexes the pixel vector, so a point off the canvas panics and is
    /// excluded.
    #[verifier::external_body]
    pub(crate) fn set_pixel(&mut self, x: u32, y: u32, c: Rgb8)
        requires
            x < canvas_width(*old(self)),
            y < canvas_height(*old(self)),
        ensures
            canvas_width(*final(self)) == canvas_width(*old(self)),
            canvas_height(*final(self)) == canvas_height(*old(self)),
            canvas_pixels(*final(self)) == canvas_pixels(*old(self)).update(
                y * canvas_width(*old(self)) + x,
                c,
            ),
    {
        self.image.set_pixel(x, y, ril::Rgb::new(c.0, c.1, c.2));
    }

    /// `rayon`'s `par_iter_mut().enumerate().for_each(..)` over a frame
    /// buffer: the closure runs once for each word and stores there the
    /// packed colour of the canvas pixel with the same index. Indexing the
    /// pixels panics when the frame has more words than the canvas has
    /// pixels; that input is excluded.
    #[verifier::external_body]
    pub(crate) fn par_pack_into(&self, target: &mut [u32])
        requires
            old(target)@.len() <= canvas_pixels(*self).len(),
        ensures
            final(target)@.len() == old(target)@.len(),
            forall|i: int|
                0 <= i < final(target)@.len() ==> final(target)@[i] == spec_pack_rgb(
                    #[trigger] canvas_pixels(*self)[i],
                ),
    {
        let data = &self.image.data;
        target.par_iter_mut().enumerate().for_each(
            |(i, word)| *word = crate::color::pack_rgb(data[i].r, data[i].g, data[i].b),
        );
    }
}

} // verus!
