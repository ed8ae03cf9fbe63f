use gloom::colors::{make_colors, make_colors_seeded, make_colors_transparent_triangle, ALPHA_MAX,
    ALPHA_MIN};
use gloom::fixed::ONE;
use gloom::toolbox::{simple_heading_animation, PATH_PITCH_AMPL, PATH_RADIUS};

#[test]
fn colors_are_opaque_and_in_range() {
    let c = make_colors(5);
    assert_eq!(c.len(), 20);
    for v in 0..5 {
        for j in 0..3 {
            assert!(0 <= c[4 * v + j] && c[4 * v + j] <= ONE);
        }
        assert_eq!(c[4 * v + 3], ONE);
    }
}

#[test]
fn seeded_colors_repeat_for_one_seed() {
    let a = make_colors_seeded(7, 42);
    let b = make_colors_seeded(7, 42);
    assert_eq!(a.len(), 28);
    assert_eq!(a, b);
    for v in 0..7 {
        assert_eq!(a[4 * v + 3], ONE);
    }
}

#[test]
fn transparent_triangles_share_one_faint_color() {
    let c = make_colors_transparent_triangle(3);
    assert_eq!(c.len(), 36);
    for t in 0..3 {
        let b = 12 * t;
        for j in 0..4 {
            assert_eq!(c[b + 4 + j], c[b + j]);
            assert_eq!(c[b + 8 + j], c[b + j]);
        }
        assert!(ALPHA_MIN <= c[b + 3] && c[b + 3] <= ALPHA_MAX);
        for j in 0..3 {
            assert!(0 <= c[b + j] && c[b + j] <= ONE);
        }
    }
}

#[test]
fn heading_starts_on_the_circle() {
    let h = simple_heading_animation(0);
    assert_eq!(h.x, 0);
    assert_eq!(h.z, PATH_RADIUS);
    assert_eq!(h.yaw, 0);
    assert_eq!(h.pitch, PATH_PITCH_AMPL);
    assert_eq!(h.roll, 0);
}

#[test]
fn heading_is_a_pure_function_of_time() {
    let a = simple_heading_animation(123456);
    let b = simple_heading_animation(123456);
    assert_eq!(a, b);
    assert!(-PATH_RADIUS <= a.x && a.x <= PATH_RADIUS);
    assert!(-PATH_RADIUS <= a.z && a.z <= PATH_RADIUS);
}
