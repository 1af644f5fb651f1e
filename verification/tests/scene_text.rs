use bouncing_balls::atlas::{atlas_dot, atlas_size, glyph_origin};
use bouncing_balls::color::pack_rgb;
use bouncing_balls::marker::marker_shape;
use bouncing_balls::scene::{safe_circle, FieldBounds, Sprite};
use bouncing_balls::text::{cpu_status_line, gpu_status_codes, gpu_status_line};
use bouncing_balls::{Canvas, Rect, ShapeMarker};

fn frame_of(c: &Canvas) -> Vec<u32> {
    let mut buf = vec![0u32; (c.width() * c.height()) as usize];
    c.copy_to_frame(&mut buf);
    buf
}

fn at(buf: &[u32], w: u32, x: u32, y: u32) -> u32 {
    buf[(y * w + x) as usize]
}

#[test]
fn blank_canvas_is_black() {
    let c = Canvas::blank(7, 5);
    assert_eq!((c.width(), c.height()), (7, 5));
    assert!(frame_of(&c).iter().all(|&p| p == 0));
}

#[test]
fn copy_to_frame_packs_every_pixel() {
    let mut c = Canvas::blank(4, 3);
    c.plot_clipped(1, 2, (1, 2, 3));
    let mut short = vec![7u32; 10];
    c.copy_to_frame(&mut short);
    assert_eq!(short[9], pack_rgb(1, 2, 3));
    assert!(short[..9].iter().all(|&p| p == 0));
}

#[test]
fn safe_circle_requires_whole_ball_inside_field() {
    let b = FieldBounds { left: 0, right: 400, top: 0, bottom: 400 };
    assert_eq!(safe_circle(100, 100, 10, b), Some((100, 100, 10)));
    assert_eq!(safe_circle(10, 10, 10, b), Some((10, 10, 10)));
    assert_eq!(safe_circle(9, 100, 10, b), None);
    assert_eq!(safe_circle(390, 100, 10, b), None);
    assert_eq!(safe_circle(389, 389, 10, b), Some((389, 389, 10)));
    assert_eq!(safe_circle(100, 390, 10, b), None);
}

#[test]
fn scene_frame_layers() {
    let (w, h) = (60u32, 64u32);
    let mut c = Canvas::blank(w, h);
    let field = Rect { x: 0, y: 0, w: 60, h: 34 };
    let bounds = FieldBounds { left: 0, right: 60, top: 0, bottom: 34 };
    let sprites = vec![
        Sprite { cx: 20, cy: 20, r: 8, color: (255, 255, 255), marker: ShapeMarker::Square },
        // Crosses the right edge of the field: not drawn.
        Sprite { cx: 55, cy: 20, r: 8, color: (200, 0, 0), marker: ShapeMarker::Dot },
    ];
    c.draw_scene(w, h, field, bounds, &sprites, (50, 30, 30));
    let buf = frame_of(&c);
    // The field covers the top 34 rows.
    assert_eq!(at(&buf, w, 45, 5), pack_rgb(40, 40, 40));
    assert_eq!(at(&buf, w, 55, 20), pack_rgb(40, 40, 40));
    // Rows 34 to 39, between field and panel, show the background.
    assert_eq!(at(&buf, w, 30, 34), pack_rgb(50, 30, 30));
    assert_eq!(at(&buf, w, 30, 39), pack_rgb(50, 30, 30));
    // The panel covers the bottom 24 rows.
    for y in 40..64 {
        assert_eq!(at(&buf, w, 0, y), pack_rgb(15, 15, 15));
        assert_eq!(at(&buf, w, 59, y), pack_rgb(15, 15, 15));
    }
    // The white ball is drawn, and its square marker is black.
    assert_eq!(at(&buf, w, 20, 13), pack_rgb(255, 255, 255));
    assert_eq!(at(&buf, w, 26, 20), pack_rgb(255, 255, 255));
    assert_eq!(at(&buf, w, 20, 20), pack_rgb(0, 0, 0));
    assert_eq!(at(&buf, w, 17, 17), pack_rgb(0, 0, 0));
    assert_eq!(at(&buf, w, 22, 22), pack_rgb(0, 0, 0));
    assert_eq!(at(&buf, w, 23, 20), pack_rgb(255, 255, 255));
}

#[test]
fn draw_marker_paints_its_rectangles() {
    let mut c = Canvas::blank(20, 20);
    c.draw_marker(10, 10, ShapeMarker::Cross, (9, 9, 9));
    let buf = frame_of(&c);
    let painted: Vec<(u32, u32)> = (0..20)
        .flat_map(|y| (0..20).map(move |x| (x, y)))
        .filter(|&(x, y)| at(&buf, 20, x, y) != 0)
        .collect();
    let mut expected = Vec::new();
    for y in 0..20u32 {
        for x in 0..20u32 {
            let bar = (6..14).contains(&x) && (9..11).contains(&y);
            let post = (9..11).contains(&x) && (6..14).contains(&y);
            if bar || post {
                expected.push((x, y));
            }
        }
    }
    assert_eq!(painted, expected);
}

#[test]
fn status_dots_land_on_the_panel() {
    let (w, h) = (100u32, 60u32);
    let mut c = Canvas::blank(w, h);
    c.draw_status_dot(3, 4, true, w, h, (0, 255, 0));
    let buf = frame_of(&c);
    // (3, 4) scales to (16, 8 + 36).
    for (x, y) in [(16, 44), (17, 44), (16, 45), (17, 45)] {
        assert_eq!(at(&buf, w, x, y), pack_rgb(0, 255, 0));
    }
    assert_eq!(buf.iter().filter(|&&p| p != 0).count(), 4);
    // Unlit pixels, negative points and dots crossing the edge are dropped.
    let mut c2 = Canvas::blank(w, h);
    c2.draw_status_dot(3, 4, false, w, h, (0, 255, 0));
    c2.draw_status_dot(-1, 4, true, w, h, (0, 255, 0));
    c2.draw_status_dot(45, 0, true, w, h, (0, 255, 0));
    c2.draw_status_dot(0, 12, true, w, h, (0, 255, 0));
    assert!(frame_of(&c2).iter().all(|&p| p == 0));
}

#[test]
fn plot_clipped_ignores_points_off_canvas() {
    let mut c = Canvas::blank(5, 5);
    c.plot_clipped(-1, 0, (1, 1, 1));
    c.plot_clipped(5, 0, (1, 1, 1));
    c.plot_clipped(0, 5, (1, 1, 1));
    assert!(frame_of(&c).iter().all(|&p| p == 0));
    c.plot_clipped(4, 4, (1, 1, 1));
    assert_eq!(frame_of(&c)[24], pack_rgb(1, 1, 1));
}

#[test]
fn status_lines_match_the_formatting() {
    let cpu: String = cpu_status_line(60, 15).into_iter().collect();
    assert_eq!(cpu, format!("FPS: {:<3}  B: {:<3}", 60, 15));
    assert_eq!(cpu, "FPS: 60   B: 15 ");
    let gpu: String = gpu_status_line(144, 7).into_iter().collect();
    assert_eq!(gpu, format!("FPS: {}  \u{428}: {:<3}", 144, 7));
    for (fps, n) in [(0u32, 0usize), (9, 10), (1000, 12345), (u32::MAX, usize::MAX)] {
        let cpu: String = cpu_status_line(fps, n).into_iter().collect();
        assert_eq!(cpu, format!("FPS: {:<3}  B: {:<3}", fps, n));
        let gpu: String = gpu_status_line(fps, n).into_iter().collect();
        assert_eq!(gpu, format!("FPS: {}  \u{428}: {:<3}", fps, n));
    }
}

#[test]
fn gpu_codes_take_sixteen_characters() {
    let codes = gpu_status_codes(60, 15);
    let text = "FPS: 60  \u{428}: 15 ";
    let mut expected: Vec<u32> = text.chars().map(|c| c as u32).collect();
    expected.resize(16, 0);
    assert_eq!(codes, expected);
    let long = gpu_status_codes(123456, 1000);
    let text = format!("FPS: {}  \u{428}: {:<3}", 123456, 1000);
    let expected: Vec<u32> = text.chars().take(16).map(|c| c as u32).collect();
    assert_eq!(long, expected);
}

#[test]
fn atlas_layout() {
    assert_eq!(atlas_size(), (760, 12));
    assert_eq!(glyph_origin(32), (1, 9));
    assert_eq!(glyph_origin(b'A'), ((65 - 32) * 8 + 1, 9));
    assert_eq!(glyph_origin(126), (753, 9));
    assert_eq!(atlas_dot(3, 4, true, 760, 12), Some((3, 4)));
    assert_eq!(atlas_dot(3, 4, false, 760, 12), None);
    assert_eq!(atlas_dot(-1, 4, true, 760, 12), None);
    assert_eq!(atlas_dot(760, 4, true, 760, 12), None);
    assert_eq!(atlas_dot(3, 12, true, 760, 12), None);
}

#[test]
fn markers_stay_within_four_pixels_of_centre() {
    for m in [
        ShapeMarker::Plain,
        ShapeMarker::Square,
        ShapeMarker::Dot,
        ShapeMarker::Cross,
        ShapeMarker::Rhombus,
        ShapeMarker::Triangle,
        ShapeMarker::Star,
    ] {
        for r in marker_shape(50, 60, m) {
            assert!(r.w > 0 && r.h > 0);
            assert!(r.x >= 46 && r.x + r.w <= 55);
            assert!(r.y >= 56 && r.y + r.h <= 65);
        }
    }
}

#[test]
fn cpu_status_line_is_sixteen_characters_for_small_numbers() {
    for (fps, n) in [(0u32, 0usize), (59, 15), (999, 999)] {
        assert_eq!(cpu_status_line(fps, n).len(), 16);
    }
    assert!(cpu_status_line(123456, 7).len() > 16);
}

#[test]
fn status_text_stays_on_the_panel() {
    let (w, h) = (120u32, 80u32);
    let mut c = Canvas::blank(w, h);
    for py in 0..12 {
        for px in 0..60 {
            c.draw_status_dot(px, py, true, w, h, (0, 255, 0));
        }
    }
    let buf = frame_of(&c);
    for y in 0..h {
        for x in 0..w {
            if at(&buf, w, x, y) != 0 {
                assert!(y >= h - 24 && x >= 10);
            }
        }
    }
}

#[test]
fn undrawn_ball_leaves_frame_unchanged() {
    let (w, h) = (60u32, 64u32);
    let field = Rect { x: 0, y: 0, w: 60, h: 34 };
    let bounds = FieldBounds { left: 0, right: 60, top: 0, bottom: 34 };
    let inside = Sprite { cx: 20, cy: 15, r: 8, color: (200, 10, 10), marker: ShapeMarker::Star };
    let out_a = Sprite { cx: 55, cy: 15, r: 8, color: (0, 0, 255), marker: ShapeMarker::Dot };
    let out_b = Sprite { cx: 3, cy: 30, r: 6, color: (0, 255, 0), marker: ShapeMarker::Cross };
    let mut c1 = Canvas::blank(w, h);
    c1.draw_scene(w, h, field, bounds, &vec![inside, out_a], (50, 30, 30));
    let mut c2 = Canvas::blank(w, h);
    c2.draw_scene(w, h, field, bounds, &vec![inside, out_b], (50, 30, 30));
    assert_eq!(frame_of(&c1), frame_of(&c2));
}

#[test]
fn drawn_ball_paints_only_inside_its_box() {
    let (w, h) = (40u32, 40u32);
    let bounds = FieldBounds { left: 0, right: 40, top: 0, bottom: 40 };
    let s = Sprite { cx: 20, cy: 18, r: 6, color: (255, 255, 255), marker: ShapeMarker::Star };
    let mut c = Canvas::blank(w, h);
    c.draw_sprite(s, bounds);
    let buf = frame_of(&c);
    let mut changed = 0;
    for y in 0..h {
        for x in 0..w {
            if at(&buf, w, x, y) != 0 {
                changed += 1;
                assert!((14..=26).contains(&x) && (12..=24).contains(&y), "{x} {y}");
            }
        }
    }
    assert!(changed > 0);
}
