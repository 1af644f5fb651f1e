use bouncing_balls::layout::{
    dock_left_of, dock_right_of, field_size, follow_move, initial_window_size, min_window_size,
    resync_target, DockMove, WindowRole, BALL_COUNT, PANEL_HEIGHT, PANEL_MIN_WIDTH,
};
use bouncing_balls::pointer::{stepped_index, Growth, PointerState};

#[test]
fn constants() {
    assert_eq!(BALL_COUNT, 15);
    assert_eq!(PANEL_HEIGHT, 24);
    assert_eq!(PANEL_MIN_WIDTH, 100);
}

#[test]
fn window_sizes() {
    assert_eq!(initial_window_size(), (400, 424));
    assert_eq!(field_size(400, 424), (400, 400));
    assert_eq!(field_size(300, 24), (300, 0));
    assert_eq!(min_window_size(0), (150, 174));
    assert_eq!(min_window_size(120), (150, 174));
    assert_eq!(min_window_size(213), (213, 237));
}

#[test]
fn docking() {
    assert_eq!(dock_right_of(100, 416), 516);
    assert_eq!(dock_left_of(516, 416), 100);
    assert_eq!(dock_left_of(dock_right_of(-30, 250), 250), -30);
    assert_eq!(resync_target(100, 50, 416, 516, 50), None);
    assert_eq!(resync_target(100, 50, 416, 500, 50), Some((516, 50)));
    assert_eq!(resync_target(100, 50, 416, 516, 60), Some((516, 50)));
    assert_eq!(
        follow_move(WindowRole::Gpu, 10, 20, 416),
        Some(DockMove { target: WindowRole::Cpu, x: 426, y: 20 })
    );
    assert_eq!(
        follow_move(WindowRole::Cpu, 426, 20, 416),
        Some(DockMove { target: WindowRole::Gpu, x: 10, y: 20 })
    );
    assert_eq!(follow_move(WindowRole::Other, 426, 20, 416), None);
}

#[test]
fn press_on_empty_space_spawns_grows_and_launches() {
    let mut s = PointerState::new();
    let mut count = 15usize;
    assert!(s.press_left(count, false));
    count += 1;
    assert_eq!(s.growing, Some(15));
    assert_eq!(s.growth(count), Some((15, Growth::Grow)));
    // Right button held too: the ball shrinks, and nothing is removed.
    assert_eq!(s.press_right(Some(3)), None);
    assert_eq!(s.growth(count), Some((15, Growth::Shrink)));
    s.release_right();
    assert_eq!(s.growth(count), Some((15, Growth::Grow)));
    assert_eq!(s.release_left(count), Some(15));
    assert_eq!(s.growing, None);
    assert_eq!(s.growth(count), None);
}

#[test]
fn press_on_a_ball_spawns_nothing() {
    let mut s = PointerState::new();
    assert!(!s.press_left(15, true));
    assert_eq!(s.growing, None);
    assert!(s.left_down);
    assert_eq!(s.release_left(15), None);
}

#[test]
fn right_press_removes_ball_under_cursor() {
    let mut s = PointerState::new();
    assert_eq!(s.press_right(Some(4)), Some(4));
    assert_eq!(s.press_right(None), None);
    s.release_right();
    assert!(!s.right_down);
}

#[test]
fn stale_growing_index_is_not_launched() {
    let mut s = PointerState::new();
    assert!(s.press_left(5, false));
    // The scene shrank below the growing index: nothing to grow or launch.
    assert_eq!(s.growth(5), None);
    assert_eq!(s.release_left(5), None);
}

#[test]
fn stepped_index_skips_the_excluded_ball() {
    assert_eq!(stepped_index(0, 2, 5), Some(0));
    assert_eq!(stepped_index(2, 2, 5), None);
    assert_eq!(stepped_index(3, 2, 5), Some(2));
    assert_eq!(stepped_index(4, 2, 5), Some(3));
    assert_eq!(stepped_index(4, 7, 5), Some(4));
}

#[test]
fn resync_then_nothing_more_to_do() {
    let (px, py, pw) = (40, 70, 416);
    let (x, y) = resync_target(px, py, pw, 0, 0).unwrap();
    assert_eq!(resync_target(px, py, pw, x, y), None);
}

#[test]
fn follow_move_never_moves_the_moved_window() {
    for role in [WindowRole::Gpu, WindowRole::Cpu] {
        let m = follow_move(role, 300, 12, 200).unwrap();
        assert_ne!(m.target, role);
        assert_eq!(m.y, 12);
    }
}

#[test]
fn minimum_window_keeps_a_square_field() {
    for side in [0u32, 99, 100, 149, 150, 151, 500] {
        let (w, h) = min_window_size(side);
        assert!(w >= PANEL_MIN_WIDTH && w >= 150 && w >= side);
        assert!(h - PANEL_HEIGHT >= 150 && h - PANEL_HEIGHT >= side);
    }
}
