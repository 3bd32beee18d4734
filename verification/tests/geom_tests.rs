use asteroids_core::geom::{
    boxes_overlap, isqrt, norm_dir, normalize_coords_in_window, sat_add_usize, scaled,
    scaled_vec, wrap_angle, Vec2, Window,
};

fn win800() -> Window {
    Window { width: 800_000, height: 800_000 }
}

#[test]
fn isqrt_exact_squares() {
    assert_eq!(isqrt(0), 0);
    assert_eq!(isqrt(1), 1);
    assert_eq!(isqrt(24), 4);
    assert_eq!(isqrt(25), 5);
    assert_eq!(isqrt(26), 5);
    assert_eq!(isqrt(1_000_000), 1000);
    assert_eq!(isqrt(u64::MAX), 4_294_967_295);
}

#[test]
fn norm_dir_pythagorean() {
    let u = norm_dir(Vec2 { x: 3000, y: 4000 });
    assert_eq!(u, Vec2 { x: 600, y: 800 });
    let u = norm_dir(Vec2 { x: -3000, y: 4000 });
    assert_eq!(u, Vec2 { x: -600, y: 800 });
    let u = norm_dir(Vec2 { x: 0, y: -325_000 });
    assert_eq!(u, Vec2 { x: 0, y: -1000 });
    let u = norm_dir(Vec2 { x: 100_000, y: 0 });
    assert_eq!(u, Vec2 { x: 1000, y: 0 });
}

#[test]
fn window_coords_flip_and_center() {
    let w = win800();
    let origin = normalize_coords_in_window(&w, Vec2 { x: 0, y: 0 });
    assert_eq!(origin, Vec2 { x: 400_000, y: 400_000 });
    // The same formula converts back: it is an involution.
    let back = normalize_coords_in_window(&w, origin);
    assert_eq!(back, Vec2 { x: 0, y: 0 });
    let p = normalize_coords_in_window(&w, Vec2 { x: 25_000, y: -25_000 });
    assert_eq!(p, Vec2 { x: 375_000, y: 425_000 });
}

#[test]
fn overlap_is_strict_at_touching_edges() {
    let a = Vec2 { x: 0, y: 0 };
    let a_box = Vec2 { x: 32_000, y: 32_000 };
    let b_box = Vec2 { x: 48_000, y: 48_000 };
    // Edges exactly touching: centre distance doubled equals the side sum.
    assert!(!boxes_overlap(a, a_box, Vec2 { x: 40_000, y: 0 }, b_box));
    assert!(boxes_overlap(a, a_box, Vec2 { x: 39_999, y: 0 }, b_box));
    assert!(!boxes_overlap(a, a_box, Vec2 { x: 0, y: 40_000 }, b_box));
    assert!(boxes_overlap(a, a_box, Vec2 { x: 10_000, y: -10_000 }, b_box));
}

#[test]
fn scaled_truncates_toward_zero() {
    assert_eq!(scaled(1000, 8000), 8000);
    assert_eq!(scaled(-1000, 8000), -8000);
    assert_eq!(scaled(600, 4700), 2820);
    assert_eq!(scaled(-333, 100), -33);
    assert_eq!(scaled(0, 9999), 0);
    let v = scaled_vec(Vec2 { x: 600, y: -800 }, 5000);
    assert_eq!(v, Vec2 { x: 3000, y: -4000 });
}

#[test]
fn wrap_angle_stays_in_one_turn() {
    assert_eq!(wrap_angle(0, -10), 6273);
    assert_eq!(wrap_angle(6270, 50), 37);
    assert_eq!(wrap_angle(100, 50), 150);
    assert_eq!(wrap_angle(6282, 0), 6282);
}

#[test]
fn sat_add_clamps_at_max() {
    assert_eq!(sat_add_usize(3, 4), 7);
    assert_eq!(sat_add_usize(usize::MAX, 1), usize::MAX);
    assert_eq!(sat_add_usize(usize::MAX - 2, 2), usize::MAX);
}
