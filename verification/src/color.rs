//! Colour rules: the marker colour that stands out on a ball, the colour a
//! clicked ball may take, and the frame-buffer word of a colour.

use crate::canvas::{spec_pack_rgb, Rgb8};
use crate::marker::ShapeMarker;
use crate::random::random_channel;
use vstd::prelude::*;

verus! {

/// Perceived brightness `0.299 r + 0.587 g + 0.114 b`, in thousandths.
pub open spec fn brightness_milli(c: Rgb8) -> int {
    299 * c.0 + 587 * c.1 + 114 * c.2
}

/// A colour is bright when its perceived brightness exceeds 128.
pub open spec fn is_bright(c: Rgb8) -> bool {
    brightness_milli(c) > 128_000
}

pub open spec fn black() -> Rgb8 {
    (0, 0, 0)
}

pub open spec fn white() -> Rgb8 {
    (255, 255, 255)
}

/// The colour a marker is drawn in on a ball of colour `c`: black on bright
/// balls, white on dark ones.
pub open spec fn spec_contrast(c: Rgb8) -> Rgb8 {
    if is_bright(c) {
        black()
    } else {
        white()
    }
}

/// The marker colour for a ball of colour `c`. The brightness test is
/// carried out exactly in thousandths; evaluated in `f32`,
/// `0.299 r + 0.587 g + 0.114 b > 128` gives the same answer for every
/// colour.
pub fn contrast_color(c: Rgb8) -> (m: Rgb8)
    ensures
        m == spec_contrast(c),
{
    let milli: u32 = 299 * (c.0 as u32) + 587 * (c.1 as u32) + 114 * (c.2 as u32);
    if milli > 128_000 {
        (0, 0, 0)
    } else {
        (255, 255, 255)
    }
}

/// A marker always stands out from its ball: the marker colour is bright
/// exactly when the ball is dark.
pub proof fn contrast_is_opposite(c: Rgb8)
    ensures
        is_bright(spec_contrast(c)) <==> !is_bright(c),
{
}

/// Squared Euclidean distance between two colours in RGB space.
pub open spec fn dist_sq(a: Rgb8, b: Rgb8) -> int {
    (a.0 - b.0) * (a.0 - b.0) + (a.1 - b.1) * (a.1 - b.1) + (a.2 - b.2) * (a.2 - b.2)
}

/// Colour `a` lies more than 80 away from colour `b`. (In `f32` the
/// channel differences, their squares and sum are exact, and the square
/// root exceeds 80 exactly when the sum exceeds 6400.)
pub open spec fn far_from(a: Rgb8, b: Rgb8) -> bool {
    dist_sq(a, b) > 6400
}

/// Whether colour `a` lies more than 80 away from colour `b`.
pub fn is_far_from(a: Rgb8, b: Rgb8) -> (far: bool)
    ensures
        far == far_from(a, b),
{
    let dr: i32 = a.0 as i32 - b.0 as i32;
    let dg: i32 = a.1 as i32 - b.1 as i32;
    let db: i32 = a.2 as i32 - b.2 as i32;
    assert(dr * dr <= 65025) by (nonlinear_arith)
        requires
            -255 <= dr <= 255,
    ;
    assert(dg * dg <= 65025) by (nonlinear_arith)
        requires
            -255 <= dg <= 255,
    ;
    assert(db * db <= 65025) by (nonlinear_arith)
        requires
            -255 <= db <= 255,
    ;
    assert(0 <= dr * dr && 0 <= dg * dg && 0 <= db * db) by (nonlinear_arith);
    dr * dr + dg * dg + db * db > 6400
}

/// What a clicked ball's colour becomes when the candidate colour `cand` is
/// drawn: nothing when `cand` is within 80 of the background, else `cand`
/// with its green and blue channels exchanged (the ball stores `(r, b, g)`
/// of the candidate that passed the test).
pub open spec fn spec_recolor_choice(cand: Rgb8, bg: Rgb8) -> Option<Rgb8> {
    if far_from(cand, bg) {
        Some((cand.0, cand.2, cand.1))
    } else {
        None
    }
}

/// The decision on one candidate colour for a clicked ball.
pub fn recolor_choice(cand: Rgb8, bg: Rgb8) -> (res: Option<Rgb8>)
    ensures
        res == spec_recolor_choice(cand, bg),
{
    if is_far_from(cand, bg) {
        Some((cand.0, cand.2, cand.1))
    } else {
        None
    }
}

/// One draw of a new colour for a clicked ball on background `bg`: three
/// random channels form the candidate, and the candidate is kept or
/// refused as `recolor_choice` decides. The caller draws again after a
/// refusal.
pub fn recolor_attempt(bg: Rgb8) -> (res: Option<Rgb8>)
    ensures
        exists|cand: Rgb8| res == spec_recolor_choice(cand, bg),
        res matches Some(c) ==> far_from((c.0, c.2, c.1), bg),
{
    let r = random_channel();
    let g = random_channel();
    let b = random_channel();
    let res = recolor_choice((r, g, b), bg);
    assert(res == spec_recolor_choice((r, g, b), bg));
    res
}

/// A colour accepted for a ball, read back with green and blue exchanged,
/// is the candidate that was tested, and so lies more than 80 away from the
/// background.
pub proof fn accepted_colour_is_far(cand: Rgb8, bg: Rgb8)
    ensures
        spec_recolor_choice(cand, bg) matches Some(c) ==> (c.0, c.2, c.1) == cand && far_from(
            cand,
            bg,
        ),
{
}

/// The first part of what a click on a ball does: a ball that carries a
/// marker loses it; a ball without one keeps it that way and must take a
/// new colour. Returns whether a new colour is owed.
pub fn click_marker(marker: &mut ShapeMarker) -> (recolor: bool)
    ensures
        *final(marker) == ShapeMarker::Plain,
        recolor == (*old(marker) == ShapeMarker::Plain),
{
    if *marker != ShapeMarker::Plain {
        *marker = ShapeMarker::Plain;
        false
    } else {
        true
    }
}

/// Packs three channels into the `0x00RRGGBB` word that a softbuffer frame
/// holds.
pub fn pack_rgb(r: u8, g: u8, b: u8) -> (p: u32)
    ensures
        p == spec_pack_rgb((r, g, b)),
{
    let p = ((r as u32) << 16) | ((g as u32) << 8) | (b as u32);
    assert(((r as u32) << 16) | ((g as u32) << 8) | (b as u32) == r * 0x10000 + g * 0x100 + b)
        by (bit_vector);
    p
}

/// Packing loses nothing: each channel can be read back from the packed
/// word, and the top byte is always zero.
pub proof fn pack_rgb_roundtrip(r: u8, g: u8, b: u8)
    ensures
        ((spec_pack_rgb((r, g, b)) as u32) >> 16) & 0xff == r,
        ((spec_pack_rgb((r, g, b)) as u32) >> 8) & 0xff == g,
        (spec_pack_rgb((r, g, b)) as u32) & 0xff == b,
        (spec_pack_rgb((r, g, b)) as u32) >> 24 == 0,
        spec_pack_rgb((r, g, b)) <= 0xffffff,
{
    let p: u32 = (r * 0x10000 + g * 0x100 + b) as u32;
    assert(p == spec_pack_rgb((r, g, b)));
    assert((p >> 16) & 0xff == r && (p >> 8) & 0xff == g && p & 0xff == b && p >> 24 == 0)
        by (bit_vector)
        requires
            p == r * 0x10000 + g * 0x100 + b,
    ;
}

} // verus!
