//! Fixed vertex/color data sets for a handful of small rendering
//! exercises: a seeded grid, three overlapping transparent triangles in
//! two color orders and two depth orders, and a single opaque triangle.

use vstd::prelude::*;
use crate::fixed::ONE;
use crate::colors::{make_colors_seeded, rgba_ok};
use crate::shapes::{ints, generate_triangles, generate_triangle_at, gt_grid, tri_at_seq};

verus! {

/// Raw half opacity.
pub const ALPHA_HALF: i64 = 32768;

/// Raw 0.5, the size of the large exercise triangle.
pub const HALF_UNIT: i64 = 32768;

/// Raw 0.1, the offset the exercise triangles are placed at.
pub const TENTH: i64 = 6554;

/// Raw 0.25, the size of the exercise triangles.
pub const QUARTER: i64 = 16384;

/// Twelve raw values: one RGBA color repeated for three vertices.
pub open spec fn flat_color(r: int, g: int, b: int, a: int) -> Seq<int> {
    seq![r, g, b, a, r, g, b, a, r, g, b, a]
}

/// The triangle index list `0` up to `n - 1`.
fn index_run(n: u32) -> (r: Vec<u32>)
    requires
        n <= 0x1000_0000,
    ensures
        r@.len() == n,
        forall|i: int| 0 <= i < n ==> #[trigger] r@[i] == i,
{
    let mut indices: Vec<u32> = Vec::new();
    let mut k: u32 = 0;
    while k < n
        invariant
            0 <= k <= n,
            indices@.len() == k,
            forall|i: int| 0 <= i < k ==> #[trigger] indices@[i] == i,
        decreases n - k,
    {
        indices.push(k);
        k = k + 1;
    }
    indices
}

/// Twelve pushed raw values of one flat color.
fn push_flat_color(out: &mut Vec<i64>, r: i64, g: i64, b: i64, a: i64)
    ensures
        ints(final(out)@) =~= ints(old(out)@) + flat_color(r as int, g as int, b as int, a as int),
{
    out.push(r);
    out.push(g);
    out.push(b);
    out.push(a);
    out.push(r);
    out.push(g);
    out.push(b);
    out.push(a);
    out.push(r);
    out.push(g);
    out.push(b);
    out.push(a);
}

/// A 3-by-3 grid of triangles with seeded random colors, one RGBA per
/// buffer value of the grid.
pub fn assignment2_task1b() -> (r: (Vec<i64>, Vec<u32>, Vec<i64>))
    ensures
        ints(r.0@) == gt_grid(3, 3, 3),
        r.0@.len() == 81,
        r.1@.len() == 27,
        forall|i: int| 0 <= i < 27 ==> #[trigger] r.1@[i] == i,
        r.2@.len() == 4 * 81,
        forall|v: int| 0 <= v < 81 ==> #[trigger] rgba_ok(r.2@, v),
{
    let (vertices, indices) = generate_triangles(3, 3);
    let colors = make_colors_seeded(vertices.len() as u32, 12345);
    (vertices, indices, colors)
}

/// Three overlapping triangles at different depths, colored red, green
/// and blue front to back, all half transparent.
pub fn assignment2_task2a() -> (r: (Vec<i64>, Vec<u32>, Vec<i64>))
    ensures
        ints(r.0@) =~= tri_at_seq(0, -(TENTH as int), TENTH as int, QUARTER as int) + tri_at_seq(
            TENTH as int,
            TENTH as int,
            0,
            QUARTER as int,
        ) + tri_at_seq(-(TENTH as int), TENTH as int, -(TENTH as int), QUARTER as int),
        r.1@.len() == 9,
        forall|i: int| 0 <= i < 9 ==> #[trigger] r.1@[i] == i,
        ints(r.2@) =~= flat_color(ONE as int, 0, 0, ALPHA_HALF as int) + flat_color(
            0,
            ONE as int,
            0,
            ALPHA_HALF as int,
        ) + flat_color(0, 0, ONE as int, ALPHA_HALF as int),
{
    let mut vertices = generate_triangle_at(0, -TENTH, TENTH, QUARTER);
    let mut t2 = generate_triangle_at(TENTH, TENTH, 0, QUARTER);
    let mut t3 = generate_triangle_at(-TENTH, TENTH, -TENTH, QUARTER);
    let ghost v1 = vertices@;
    vertices.append(&mut t2);
    let ghost v2 = vertices@;
    vertices.append(&mut t3);
    proof {
        assert(ints(v2) =~= ints(v1) + ints(v2.subrange(v1.len() as int, v2.len() as int)));
        assert(ints(vertices@) =~= ints(v2) + ints(
            vertices@.subrange(v2.len() as int, vertices@.len() as int),
        ));
    }
    let mut colors: Vec<i64> = Vec::new();
    push_flat_color(&mut colors, ONE, 0, 0, ALPHA_HALF);
    push_flat_color(&mut colors, 0, ONE, 0, ALPHA_HALF);
    push_flat_color(&mut colors, 0, 0, ONE, ALPHA_HALF);
    (vertices, index_run(9), colors)
}

/// The triangles of the first transparency exercise with the colors
/// cycled: green, blue, red front to back.
pub fn assignment2_task2b_i() -> (r: (Vec<i64>, Vec<u32>, Vec<i64>))
    ensures
        ints(r.0@) =~= tri_at_seq(0, -(TENTH as int), TENTH as int, QUARTER as int) + tri_at_seq(
            TENTH as int,
            TENTH as int,
            0,
            QUARTER as int,
        ) + tri_at_seq(-(TENTH as int), TENTH as int, -(TENTH as int), QUARTER as int),
        r.1@.len() == 9,
        forall|i: int| 0 <= i < 9 ==> #[trigger] r.1@[i] == i,
        ints(r.2@) =~= flat_color(0, ONE as int, 0, ALPHA_HALF as int) + flat_color(
            0,
            0,
            ONE as int,
            ALPHA_HALF as int,
        ) + flat_color(ONE as int, 0, 0, ALPHA_HALF as int),
{
    let mut vertices = generate_triangle_at(0, -TENTH, TENTH, QUARTER);
    let mut t2 = generate_triangle_at(TENTH, TENTH, 0, QUARTER);
    let mut t3 = generate_triangle_at(-TENTH, TENTH, -TENTH, QUARTER);
    let ghost v1 = vertices@;
    vertices.append(&mut t2);
    let ghost v2 = vertices@;
    vertices.append(&mut t3);
    proof {
        assert(ints(v2) =~= ints(v1) + ints(v2.subrange(v1.len() as int, v2.len() as int)));
        assert(ints(vertices@) =~= ints(v2) + ints(
            vertices@.subrange(v2.len() as int, vertices@.len() as int),
        ));
    }
    let mut colors: Vec<i64> = Vec::new();
    push_flat_color(&mut colors, 0, ONE, 0, ALPHA_HALF);
    push_flat_color(&mut colors, 0, 0, ONE, ALPHA_HALF);
    push_flat_color(&mut colors, ONE, 0, 0, ALPHA_HALF);
    (vertices, index_run(9), colors)
}

/// The transparency exercise with the depth order reversed, keeping the
/// cycled colors.
pub fn assignment2_task2b_ii() -> (r: (Vec<i64>, Vec<u32>, Vec<i64>))
    ensures
        ints(r.0@) =~= tri_at_seq(0, -(TENTH as int), -(TENTH as int), QUARTER as int)
            + tri_at_seq(TENTH as int, TENTH as int, 0, QUARTER as int) + tri_at_seq(
            -(TENTH as int),
            TENTH as int,
            TENTH as int,
            QUARTER as int,
        ),
        r.1@.len() == 9,
        forall|i: int| 0 <= i < 9 ==> #[trigger] r.1@[i] == i,
        ints(r.2@) =~= flat_color(0, ONE as int, 0, ALPHA_HALF as int) + flat_color(
            0,
            0,
            ONE as int,
            ALPHA_HALF as int,
        ) + flat_color(ONE as int, 0, 0, ALPHA_HALF as int),
{
    let mut vertices = generate_triangle_at(0, -TENTH, -TENTH, QUARTER);
    let mut t2 = generate_triangle_at(TENTH, TENTH, 0, QUARTER);
    let mut t3 = generate_triangle_at(-TENTH, TENTH, TENTH, QUARTER);
    let ghost v1 = vertices@;
    vertices.append(&mut t2);
    let ghost v2 = vertices@;
    vertices.append(&mut t3);
    proof {
        assert(ints(v2) =~= ints(v1) + ints(v2.subrange(v1.len() as int, v2.len() as int)));
        assert(ints(vertices@) =~= ints(v2) + ints(
            vertices@.subrange(v2.len() as int, vertices@.len() as int),
        ));
    }
    let mut colors: Vec<i64> = Vec::new();
    push_flat_color(&mut colors, 0, ONE, 0, ALPHA_HALF);
    push_flat_color(&mut colors, 0, 0, ONE, ALPHA_HALF);
    push_flat_color(&mut colors, ONE, 0, 0, ALPHA_HALF);
    (vertices, index_run(9), colors)
}

/// One large opaque triangle with a different color per vertex.
pub fn assignment2_task4b() -> (r: (Vec<i64>, Vec<u32>, Vec<i64>))
    ensures
        ints(r.0@) =~= tri_at_seq(0, 0, 0, HALF_UNIT as int),
        r.1@.len() == 3,
        forall|i: int| 0 <= i < 3 ==> #[trigger] r.1@[i] == i,
        ints(r.2@) =~= seq![
            0,
            ONE as int,
            0,
            ONE as int,
            0,
            0,
            ONE as int,
            ONE as int,
            ONE as int,
            0,
            0,
            ONE as int,
        ],
{
    let vertices = generate_triangle_at(0, 0, 0, HALF_UNIT);
    let mut colors: Vec<i64> = Vec::new();
    colors.push(0);
    colors.push(ONE);
    colors.push(0);
    colors.push(ONE);
    colors.push(0);
    colors.push(0);
    colors.push(ONE);
    colors.push(ONE);
    colors.push(ONE);
    colors.push(0);
    colors.push(0);
    colors.push(ONE);
    (vertices, index_run(3), colors)
}

} // verus!
