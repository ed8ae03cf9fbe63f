use gloom::fixed::ONE;
use gloom::shapes::{generate_circle, generate_spiral, generate_triangle_at, generate_triangles};
use gloom::tasks::{assignment2_task1b, assignment2_task2a, assignment2_task2b_i,
    assignment2_task2b_ii, assignment2_task4b, ALPHA_HALF};

#[test]
fn triangle_grid_of_one_is_exact() {
    let (vert, indices) = generate_triangles(1, 1);
    assert_eq!(vert, vec![0, 16384, 0, -16384, -16384, 0, 16384, -16384, 0]);
    assert_eq!(indices, vec![0, 1, 2]);
}

#[test]
fn triangle_grid_counts() {
    let (vert, indices) = generate_triangles(3, 3);
    assert_eq!(vert.len(), 81);
    assert_eq!(indices.len(), 27);
    for (i, v) in indices.iter().enumerate() {
        assert_eq!(*v as usize, i);
    }
}

#[test]
fn circle_of_four_segments_is_exact() {
    let (vert, indices) = generate_circle(ONE, 4);
    assert_eq!(
        vert,
        vec![
            0, 0, 0, // center
            0, ONE, 0, // angle 0
            ONE, 0, 0, // quarter turn
            0, -ONE, 0, // half turn
            -ONE, 0, 0, // three quarters
        ]
    );
    assert_eq!(indices, vec![0, 1, 4, 0, 2, 1, 0, 3, 2, 0, 4, 3]);
}

#[test]
fn spiral_radii_grow_linearly_and_indices_band() {
    let (vert, indices) = generate_spiral(ONE, 4, 1, 6554);
    // increments: (65536 - 655) / 3 = 21627 and (6554 - 655) / 3 = 1966
    assert_eq!(
        vert,
        vec![
            0, 0, 0, 0, 655, 0, // step 0: radius 655, width 655, zero band
            19661, 0, 0, 22282, 0, 0, // step 1: radius 22282, width 2621
            0, -39322, 0, 0, -43909, 0, // step 2: radius 43909, width 4587
            -58983, 0, 0, -65536, 0, 0, // step 3: radius 65536, width 6553
        ]
    );
    assert_eq!(indices, vec![3, 1, 0, 5, 3, 2, 4, 5, 2, 7, 5, 4, 6, 7, 4, 9, 7, 6]);
}

#[test]
fn circle_of_zero_segments_is_the_center() {
    let (vert, indices) = generate_circle(ONE, 0);
    assert_eq!(vert, vec![0, 0, 0]);
    assert!(indices.is_empty());
}

#[test]
fn triangle_at_is_exact() {
    let v = generate_triangle_at(0, -6554, 6554, 16384);
    assert_eq!(v, vec![0, 9830, 6554, -16384, -22938, 6554, 16384, -22938, 6554]);
}

#[test]
fn task1b_matches_grid_and_color_counts() {
    let (vert, indices, colors) = assignment2_task1b();
    assert_eq!(vert.len(), 81);
    assert_eq!(indices.len(), 27);
    assert_eq!(colors.len(), 324);
    for v in 0..81 {
        assert_eq!(colors[4 * v + 3], ONE);
    }
}

#[test]
fn task2a_is_exact() {
    let (vert, indices, colors) = assignment2_task2a();
    assert_eq!(vert.len(), 27);
    assert_eq!(&vert[0..9], &[0, 9830, 6554, -16384, -22938, 6554, 16384, -22938, 6554]);
    assert_eq!(indices, vec![0, 1, 2, 3, 4, 5, 6, 7, 8]);
    let mut expected = Vec::new();
    for rgb in [[ONE, 0, 0], [0, ONE, 0], [0, 0, ONE]] {
        for _ in 0..3 {
            expected.extend([rgb[0], rgb[1], rgb[2], ALPHA_HALF]);
        }
    }
    assert_eq!(colors, expected);
}

#[test]
fn task2b_variants_cycle_colors_and_depths() {
    let (va, _, ca) = assignment2_task2b_i();
    let (vb, _, cb) = assignment2_task2b_ii();
    assert_eq!(ca, cb);
    // the depth of the first and third triangles swaps sign
    assert_eq!(va[2], 6554);
    assert_eq!(vb[2], -6554);
    assert_eq!(va[20], -6554);
    assert_eq!(vb[20], 6554);
    let mut expected = Vec::new();
    for rgb in [[0, ONE, 0], [0, 0, ONE], [ONE, 0, 0]] {
        for _ in 0..3 {
            expected.extend([rgb[0], rgb[1], rgb[2], ALPHA_HALF]);
        }
    }
    assert_eq!(ca, expected);
}

#[test]
fn task4b_single_triangle() {
    let (vert, indices, colors) = assignment2_task4b();
    assert_eq!(vert, vec![0, ALPHA_HALF, 0, -ALPHA_HALF, -ALPHA_HALF, 0, ALPHA_HALF, -ALPHA_HALF, 0]);
    assert_eq!(indices, vec![0, 1, 2]);
    assert_eq!(
        colors,
        vec![0, ONE, 0, ONE, 0, 0, ONE, ONE, ONE, 0, 0, ONE]
    );
}
