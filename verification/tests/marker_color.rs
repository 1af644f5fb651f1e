use bouncing_balls::color::{
    click_marker, contrast_color, is_far_from, pack_rgb, recolor_attempt, recolor_choice,
};
use bouncing_balls::marker::{
    marker_at, marker_shape, placement_accepted, random_marker, scene_marker, shader_id,
    MARKER_KINDS,
};
use bouncing_balls::{Rect, ShapeMarker};

fn f32_brightness_is_high(c: (u8, u8, u8)) -> bool {
    let brightness = (c.0 as f32 * 0.299) + (c.1 as f32 * 0.587) + (c.2 as f32 * 0.114);
    brightness > 128.0
}

#[test]
fn markers_cycle_in_scene_order() {
    let expected = [
        ShapeMarker::Square,
        ShapeMarker::Dot,
        ShapeMarker::Cross,
        ShapeMarker::Rhombus,
        ShapeMarker::Triangle,
        ShapeMarker::Star,
    ];
    for k in 0..MARKER_KINDS {
        assert_eq!(marker_at(k), expected[k]);
    }
    for i in 0..20 {
        assert_eq!(scene_marker(i), expected[i % 6]);
    }
    assert_eq!(scene_marker(6), ShapeMarker::Square);
    assert_eq!(scene_marker(14), ShapeMarker::Cross);
}

#[test]
fn shader_ids_are_distinct_and_small() {
    let all = [
        ShapeMarker::Plain,
        ShapeMarker::Square,
        ShapeMarker::Dot,
        ShapeMarker::Cross,
        ShapeMarker::Rhombus,
        ShapeMarker::Triangle,
        ShapeMarker::Star,
    ];
    for (i, m) in all.iter().enumerate() {
        assert_eq!(shader_id(*m), i as u32);
    }
}

#[test]
fn random_marker_is_never_plain() {
    let mut seen = std::collections::HashSet::new();
    for _ in 0..2000 {
        let m = random_marker();
        assert_ne!(m, ShapeMarker::Plain);
        seen.insert(shader_id(m));
    }
    // All six drawable markers come up.
    assert_eq!(seen.len(), 6);
}

#[test]
fn marker_shapes_match_the_drawing_rules() {
    let r = |x, y, w, h| Rect { x, y, w, h };
    assert!(marker_shape(20, 30, ShapeMarker::Plain).is_empty());
    assert_eq!(marker_shape(20, 30, ShapeMarker::Square), vec![r(17, 27, 6, 6)]);
    assert_eq!(marker_shape(20, 30, ShapeMarker::Dot), vec![r(19, 29, 2, 2)]);
    assert_eq!(marker_shape(20, 30, ShapeMarker::Cross), vec![r(16, 29, 8, 2), r(19, 26, 2, 8)]);
    assert_eq!(marker_shape(20, 30, ShapeMarker::Rhombus), vec![r(18, 28, 4, 4)]);
    assert_eq!(
        marker_shape(20, 30, ShapeMarker::Triangle),
        vec![r(17, 32, 7, 2), r(18, 30, 5, 2), r(19, 28, 3, 2)]
    );
    assert_eq!(
        marker_shape(20, 30, ShapeMarker::Star),
        vec![r(18, 28, 5, 5), r(16, 29, 9, 3), r(19, 26, 3, 9)]
    );
    // Near the top-left corner the offsets saturate at zero.
    assert_eq!(marker_shape(1, 0, ShapeMarker::Star), vec![r(0, 0, 5, 5), r(0, 0, 9, 3), r(0, 0, 3, 9)]);
}

#[test]
fn placement_gives_up_after_two_hundred_attempts() {
    assert!(placement_accepted(false, 0));
    assert!(!placement_accepted(true, 0));
    assert!(!placement_accepted(true, 200));
    assert!(placement_accepted(true, 201));
}

#[test]
fn contrast_color_black_on_bright_white_on_dark() {
    assert_eq!(contrast_color((255, 255, 255)), (0, 0, 0));
    assert_eq!(contrast_color((255, 255, 0)), (0, 0, 0));
    assert_eq!(contrast_color((30, 30, 30)), (255, 255, 255));
    assert_eq!(contrast_color((0, 0, 255)), (255, 255, 255));
    // Exactly 128 is not bright.
    assert_eq!(contrast_color((128, 128, 128)), (255, 255, 255));
    assert_eq!(contrast_color((129, 128, 128)), (0, 0, 0));
}

#[test]
fn contrast_color_agrees_with_float_brightness() {
    for r in 0..=255u8 {
        for g in 0..=255u8 {
            for b in (0..=255u8).step_by(5) {
                let expect = if f32_brightness_is_high((r, g, b)) { (0, 0, 0) } else { (255, 255, 255) };
                assert_eq!(contrast_color((r, g, b)), expect, "{r} {g} {b}");
            }
        }
    }
}

#[test]
fn colour_distance_agrees_with_float_test() {
    let bg = (50u8, 30u8, 30u8);
    for r in (0..=255u8).step_by(3) {
        for g in (0..=255u8).step_by(3) {
            for b in (0..=255u8).step_by(3) {
                let dr = r as f32 - bg.0 as f32;
                let dg = g as f32 - bg.1 as f32;
                let db = b as f32 - bg.2 as f32;
                let far = (dr * dr + dg * dg + db * db).sqrt() > 80.0;
                assert_eq!(is_far_from((r, g, b), bg), far);
            }
        }
    }
    // Exactly 80 away is not far enough.
    assert!(!is_far_from((130, 30, 30), bg));
    assert!(is_far_from((131, 30, 30), bg));
}

#[test]
fn recolor_stores_green_and_blue_exchanged() {
    assert_eq!(recolor_choice((100, 200, 50), (50, 30, 30)), Some((100, 50, 200)));
    assert_eq!(recolor_choice((60, 40, 40), (50, 30, 30)), None);
}

#[test]
fn recolor_attempts_only_accept_far_colours() {
    let bg = (50u8, 30u8, 30u8);
    let mut accepted = 0;
    for _ in 0..2000 {
        if let Some(c) = recolor_attempt(bg) {
            accepted += 1;
            assert!(is_far_from((c.0, c.2, c.1), bg));
        }
    }
    assert!(accepted > 0);
}

#[test]
fn click_clears_marker_or_asks_for_colour() {
    let mut m = ShapeMarker::Star;
    assert!(!click_marker(&mut m));
    assert_eq!(m, ShapeMarker::Plain);
    assert!(click_marker(&mut m));
    assert_eq!(m, ShapeMarker::Plain);
}

#[test]
fn pack_rgb_layout() {
    assert_eq!(pack_rgb(0x12, 0x34, 0x56), 0x0012_3456);
    assert_eq!(pack_rgb(255, 255, 255), 0x00ff_ffff);
    assert_eq!(pack_rgb(0, 0, 0), 0);
    let p = pack_rgb(200, 100, 7);
    assert_eq!(((p >> 16) & 0xff, (p >> 8) & 0xff, p & 0xff), (200, 100, 7));
}
