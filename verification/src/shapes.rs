//! Procedural 2D shapes in raw fixed-point: a grid of triangles, a circle
//! fan, and a spiral band, each with its triangle index list. Every vertex
//! value is pinned exactly by a specification sequence.

use vstd::prelude::*;
use vstd::arithmetic::div_mod::lemma_div_nonincreasing;
use crate::fixed::{ONE, TWO_PI_FX, fx_mul, fx_mul_spec, fx_sin, fx_cos, sin_spec, cos_spec, tdiv,
    tdiv_spec, lemma_prod_bound};

verus! {

/// Largest radius or width accepted by a shape.
pub const SHAPE_MAX: i64 = 0x400_0000;

/// Initial radius and band width of the spiral (0.01).
pub const SPIRAL_START: i64 = 655;

/// The integer images of a vertex buffer.
pub open spec fn ints(s: Seq<i64>) -> Seq<int> {
    s.map_values(|v: i64| v as int)
}

/// The nine raw values of one grid triangle: an upward tip over two base
/// corners, all in the plane.
pub open spec fn gt_cell(x: u32, y: u32, xo: int, yo: int) -> Seq<int> {
    let xd = 131072int / ((x as int) + 1);
    let yd = 131072int / ((y as int) + 1);
    let xs = xd / 4;
    let ys = yd / 4;
    let xc = -(ONE as int) + xo * xd;
    let yc = -(ONE as int) + yo * yd;
    seq![xc, yc + ys, 0, xc - xs, yc - ys, 0, xc + xs, yc - ys, 0]
}

/// One column of grid triangles: rows `1` through `m` at column `xo`.
pub open spec fn gt_col(x: u32, y: u32, xo: int, m: int) -> Seq<int>
    decreases m,
{
    if m <= 0 {
        Seq::empty()
    } else {
        gt_col(x, y, xo, m - 1) + gt_cell(x, y, xo, m)
    }
}

/// Columns `1` through `n` of the grid.
pub open spec fn gt_grid(x: u32, y: u32, n: int) -> Seq<int>
    decreases n,
{
    if n <= 0 {
        Seq::empty()
    } else {
        gt_grid(x, y, n - 1) + gt_col(x, y, n, y as int)
    }
}

/// A column lists `9 m` values.
proof fn lemma_gt_col_len(x: u32, y: u32, xo: int, m: int)
    requires
        m >= 0,
    ensures
        gt_col(x, y, xo, m).len() == 9 * m,
    decreases m,
{
    if m > 0 {
        lemma_gt_col_len(x, y, xo, m - 1);
    }
}

/// The grid lists `9 n y` values.
proof fn lemma_gt_grid_len(x: u32, y: u32, n: int)
    requires
        n >= 0,
    ensures
        gt_grid(x, y, n).len() == 9 * n * y,
    decreases n,
{
    if n > 0 {
        lemma_gt_grid_len(x, y, n - 1);
        lemma_gt_col_len(x, y, n, y as int);
        assert(9 * n * y == 9 * (n - 1) * y + 9 * y) by (nonlinear_arith);
    } else {
        assert(9 * n * y == 0) by (nonlinear_arith)
            requires
                n == 0,
        ;
    }
}

/// Vertices and triangle indices for a grid of `x` by `y` small triangles
/// spread over the square from -1.0 to 1.0. The caps keep the buffers to a
/// few megabytes and the index count inside the unsigned range.
pub fn generate_triangles(x: u32, y: u32) -> (r: (Vec<i64>, Vec<u32>))
    requires
        x <= 1024,
        y <= 1024,
    ensures
        ints(r.0@) == gt_grid(x, y, x as int),
        r.0@.len() == 9 * x * y,
        r.1@.len() == 3 * x * y,
        forall|i: int| 0 <= i < r.1@.len() ==> #[trigger] r.1@[i] == i,
{
    let mut vert: Vec<i64> = Vec::new();
    let xd: i64 = (131072u64 / ((x as u64) + 1)) as i64;
    let yd: i64 = (131072u64 / ((y as u64) + 1)) as i64;
    let xs: i64 = ((xd as u64) / 4) as i64;
    let ys: i64 = ((yd as u64) / 4) as i64;
    let mut xo: u32 = 1;
    while xo <= x
        invariant
            x <= 1024,
            y <= 1024,
            1 <= xo <= x + 1,
            xd == 131072int / ((x as int) + 1),
            yd == 131072int / ((y as int) + 1),
            xs == xd / 4,
            ys == yd / 4,
            0 <= xd <= 131072,
            0 <= yd <= 131072,
            ints(vert@) == gt_grid(x, y, xo - 1),
        decreases x + 1 - xo,
    {
        proof {
            lemma_prod_bound(xo as int, xd as int, 1024, 131072);
        }
        let x_curr: i64 = -ONE + (xo as i64) * xd;
        let mut yo: u32 = 1;
        while yo <= y
            invariant
                x <= 1024,
                y <= 1024,
                1 <= xo <= x,
                1 <= yo <= y + 1,
                xd == 131072int / ((x as int) + 1),
                yd == 131072int / ((y as int) + 1),
                xs == xd / 4,
                ys == yd / 4,
                0 <= xd <= 131072,
                0 <= yd <= 131072,
                x_curr == -(ONE as int) + xo * xd,
                -65536 <= x_curr <= 0x800_0000,
                ints(vert@) == gt_grid(x, y, xo - 1) + gt_col(x, y, xo as int, yo - 1),
            decreases y + 1 - yo,
        {
            proof {
                lemma_prod_bound(yo as int, yd as int, 1024, 131072);
            }
            let y_curr: i64 = -ONE + (yo as i64) * yd;
            let ghost pre = vert@;
            vert.push(x_curr);
            vert.push(y_curr + ys);
            vert.push(0);
            vert.push(x_curr - xs);
            vert.push(y_curr - ys);
            vert.push(0);
            vert.push(x_curr + xs);
            vert.push(y_curr - ys);
            vert.push(0);
            proof {
                assert(ints(vert@) =~= ints(pre) + gt_cell(x, y, xo as int, yo as int));
            }
            yo = yo + 1;
        }
        proof {
            assert(ints(vert@) =~= gt_grid(x, y, xo as int));
        }
        xo = xo + 1;
    }
    proof {
        lemma_gt_grid_len(x, y, x as int);
        assert(0 <= 9 * (x as int) * (y as int) <= 9 * 1024 * 1024) by (nonlinear_arith)
            requires
                0 <= x <= 1024,
                0 <= y <= 1024,
        ;
        assert(0 <= 3 * (x as int) * (y as int) <= 3 * 1024 * 1024) by (nonlinear_arith)
            requires
                0 <= x <= 1024,
                0 <= y <= 1024,
        ;
    }
    let count: u32 = 3 * x * y;
    let mut indices: Vec<u32> = Vec::new();
    let mut k: u32 = 0;
    while k < count
        invariant
            count <= 3 * 1024 * 1024,
            0 <= k <= count,
            indices@.len() == k,
            forall|i: int| 0 <= i < k ==> #[trigger] indices@[i] == i,
        decreases count - k,
    {
        indices.push(k);
        k = k + 1;
    }
    proof {
        assert(3 * (x as int) * (y as int) == count) by (nonlinear_arith)
            requires
                0 <= x <= 1024,
                0 <= y <= 1024,
                count == 3 * x * y,
        ;
    }
    (vert, indices)
}

/// The raw angle of fan segment `seg` out of `segments`.
pub open spec fn circle_angle(seg: int, segments: int) -> int {
    (TWO_PI_FX as int) * seg / segments
}

/// The fan vertices of the first `s` circle segments, three raw values
/// each, after the center point.
pub open spec fn circle_verts(r: int, segments: int, s: int) -> Seq<int>
    decreases s,
{
    if s <= 0 {
        seq![0, 0, 0]
    } else {
        circle_verts(r, segments, s - 1) + seq![
            fx_mul_spec(r, sin_spec(circle_angle(s - 1, segments))),
            fx_mul_spec(r, cos_spec(circle_angle(s - 1, segments))),
            0,
        ]
    }
}

/// The fan indices of the first `s` circle segments.
pub open spec fn circle_indices(segments: int, s: int) -> Seq<u32>
    decreases s,
{
    if s <= 0 {
        Seq::empty()
    } else {
        circle_indices(segments, s - 1) + seq![
            0u32,
            (s - 1 + 1) as u32,
            ((s - 1 + segments - 1) % segments + 1) as u32,
        ]
    }
}

/// A circle of the given raw radius as a triangle fan: the center, then
/// one rim point per segment, each triangle closing on the previous rim
/// point (the last one wrapping around to the first). Zero segments give
/// the lone center point. The segment cap keeps the wrap-around index sum
/// inside the unsigned range; the radius cap keeps rim products inside
/// the raw range.
pub fn generate_circle(r: i64, segments: u32) -> (out: (Vec<i64>, Vec<u32>))
    requires
        segments <= 0x8000_0000,
        -SHAPE_MAX <= r <= SHAPE_MAX,
    ensures
        ints(out.0@) == circle_verts(r as int, segments as int, segments as int),
        out.1@ == circle_indices(segments as int, segments as int),
        out.0@.len() == 3 + 3 * segments,
        out.1@.len() == 3 * segments,
{
    let mut vert: Vec<i64> = Vec::new();
    vert.push(0);
    vert.push(0);
    vert.push(0);
    let mut indices: Vec<u32> = Vec::new();
    let mut seg: u32 = 0;
    while seg < segments
        invariant
            segments <= 0x8000_0000,
            -SHAPE_MAX <= r <= SHAPE_MAX,
            0 <= seg <= segments,
            ints(vert@) == circle_verts(r as int, segments as int, seg as int),
            indices@ == circle_indices(segments as int, seg as int),
            vert@.len() == 3 + 3 * seg,
            indices@.len() == 3 * seg,
        decreases segments - seg,
    {
        let num: u64 = (TWO_PI_FX as u64) * (seg as u64);
        proof {
            lemma_div_nonincreasing(num as int, segments as int);
        }
        let angle: i64 = (num / (segments as u64)) as i64;
        let sv = fx_sin(angle);
        let cv = fx_cos(angle);
        proof {
            lemma_prod_bound(r as int, sv as int, SHAPE_MAX as int, ONE as int);
            lemma_prod_bound(r as int, cv as int, SHAPE_MAX as int, ONE as int);
        }
        let ghost pre = vert@;
        vert.push(fx_mul(r, sv));
        vert.push(fx_mul(r, cv));
        vert.push(0);
        indices.push(0);
        indices.push(seg + 1);
        indices.push((seg + segments - 1) % segments + 1);
        proof {
            assert(ints(vert@) =~= circle_verts(r as int, segments as int, seg + 1));
            assert(indices@ =~= circle_indices(segments as int, seg + 1));
        }
        seg = seg + 1;
    }
    (vert, indices)
}

/// The raw angle of spiral segment `seg`, cycling once per `segments`.
pub open spec fn spiral_angle(seg: int, segments: int) -> int {
    (TWO_PI_FX as int) * (seg % segments) / segments
}

/// The band vertices of the first `s` spiral segments: an inner and an
/// outer point per segment, the radius and band width growing linearly.
pub open spec fn spiral_verts(r_inc: int, w_inc: int, segments: int, s: int) -> Seq<int>
    decreases s,
{
    if s <= 0 {
        Seq::empty()
    } else {
        let radius = (SPIRAL_START as int) + (s - 1) * r_inc;
        let width = (SPIRAL_START as int) + (s - 1) * w_inc;
        let a = spiral_angle(s - 1, segments);
        spiral_verts(r_inc, w_inc, segments, s - 1) + seq![
            fx_mul_spec(radius - width, sin_spec(a)),
            fx_mul_spec(radius - width, cos_spec(a)),
            0,
            fx_mul_spec(radius, sin_spec(a)),
            fx_mul_spec(radius, cos_spec(a)),
            0,
        ]
    }
}

/// The band indices of the first `s` spiral segments: each segment closes
/// a quad against the previous one.
pub open spec fn spiral_indices(s: int) -> Seq<u32>
    decreases s,
{
    if s <= 0 {
        Seq::empty()
    } else {
        let index = 2 * (s - 1);
        spiral_indices(s - 1) + (if s - 1 > 1 {
            seq![index as u32, (index + 1) as u32, (index - 2) as u32]
        } else {
            Seq::empty()
        }) + seq![(index + 3) as u32, (index + 1) as u32, index as u32]
    }
}

/// A flat spiral band: `circles` turns of `segments` steps each, the
/// radius growing from near zero to `total_radius` and the band width
/// from near zero to `end_width`, both linearly per step. The caps bound
/// the step count by the raw unit and, with the radius cap, keep every
/// accumulated radius product inside the raw range.
pub fn generate_spiral(total_radius: i64, segments: u32, circles: u32, end_width: i64) -> (out: (
    Vec<i64>,
    Vec<u32>,
))
    requires
        1 <= segments <= 256,
        1 <= circles <= 256,
        -SHAPE_MAX <= total_radius <= SHAPE_MAX,
        -SHAPE_MAX <= end_width <= SHAPE_MAX,
    ensures
        ({
            let total = segments * circles;
            let r_inc = if total == 1 {
                0int
            } else {
                tdiv_spec(total_radius - SPIRAL_START, total - 1)
            };
            let w_inc = if total == 1 {
                0int
            } else {
                tdiv_spec(end_width - SPIRAL_START, total - 1)
            };
            &&& ints(out.0@) == spiral_verts(r_inc, w_inc, segments as int, total as int)
            &&& out.1@ == spiral_indices(total as int)
            &&& out.0@.len() == 6 * total
        }),
{
    proof {
        assert(1 <= (segments as int) * (circles as int) <= 0x1_0000) by (nonlinear_arith)
            requires
                1 <= segments <= 256,
                1 <= circles <= 256,
        ;
    }
    let total_seg: u32 = segments * circles;
    let mut vert: Vec<i64> = Vec::new();
    let mut indices: Vec<u32> = Vec::new();
    let r_inc: i64 = if total_seg == 1 {
        0
    } else {
        tdiv(total_radius - SPIRAL_START, (total_seg - 1) as i64)
    };
    let w_inc: i64 = if total_seg == 1 {
        0
    } else {
        tdiv(end_width - SPIRAL_START, (total_seg - 1) as i64)
    };
    let mut radius: i64 = SPIRAL_START;
    let mut width: i64 = SPIRAL_START;
    let mut seg: u32 = 0;
    while seg < total_seg
        invariant
            1 <= segments <= 256,
            1 <= circles <= 256,
            total_seg == segments * circles,
            1 <= total_seg <= 0x1_0000,
            -(SHAPE_MAX + SPIRAL_START) <= r_inc <= SHAPE_MAX + SPIRAL_START,
            -(SHAPE_MAX + SPIRAL_START) <= w_inc <= SHAPE_MAX + SPIRAL_START,
            r_inc == (if total_seg == 1 {
                0int
            } else {
                tdiv_spec(total_radius - SPIRAL_START, total_seg - 1)
            }),
            w_inc == (if total_seg == 1 {
                0int
            } else {
                tdiv_spec(end_width - SPIRAL_START, total_seg - 1)
            }),
            0 <= seg <= total_seg,
            radius == SPIRAL_START + seg * r_inc,
            width == SPIRAL_START + seg * w_inc,
            ints(vert@) == spiral_verts(r_inc as int, w_inc as int, segments as int, seg as int),
            indices@ == spiral_indices(seg as int),
            vert@.len() == 6 * seg,
        decreases total_seg - seg,
    {
        let num: u64 = (TWO_PI_FX as u64) * ((seg % segments) as u64);
        proof {
            lemma_div_nonincreasing(num as int, segments as int);
        }
        let angle: i64 = (num / (segments as u64)) as i64;
        let sv = fx_sin(angle);
        let cv = fx_cos(angle);
        proof {
            lemma_prod_bound(
                seg as int,
                r_inc as int,
                0x1_0000,
                (SHAPE_MAX + SPIRAL_START) as int,
            );
            lemma_prod_bound(
                seg as int,
                w_inc as int,
                0x1_0000,
                (SHAPE_MAX + SPIRAL_START) as int,
            );
            lemma_prod_bound((radius - width) as int, sv as int, 0xFFF_FFFF_FFFF, ONE as int);
            lemma_prod_bound((radius - width) as int, cv as int, 0xFFF_FFFF_FFFF, ONE as int);
            lemma_prod_bound(radius as int, sv as int, 0xFFF_FFFF_FFFF, ONE as int);
            lemma_prod_bound(radius as int, cv as int, 0xFFF_FFFF_FFFF, ONE as int);
        }
        let ghost pre = vert@;
        vert.push(fx_mul(radius - width, sv));
        vert.push(fx_mul(radius - width, cv));
        vert.push(0);
        vert.push(fx_mul(radius, sv));
        vert.push(fx_mul(radius, cv));
        vert.push(0);
        let index: u32 = seg * 2;
        if seg > 1 {
            indices.push(index);
            indices.push(index + 1);
            indices.push(index - 2);
        }
        indices.push(index + 3);
        indices.push(index + 1);
        indices.push(index);
        proof {
            assert(ints(vert@) =~= spiral_verts(
                r_inc as int,
                w_inc as int,
                segments as int,
                seg + 1,
            ));
            assert(indices@ =~= spiral_indices(seg + 1));
            lemma_prod_bound(
                seg + 1,
                r_inc as int,
                0x1_0000,
                (SHAPE_MAX + SPIRAL_START) as int,
            );
            lemma_prod_bound(
                seg + 1,
                w_inc as int,
                0x1_0000,
                (SHAPE_MAX + SPIRAL_START) as int,
            );
            assert((seg + 1) * (r_inc as int) == seg * (r_inc as int) + r_inc)
                by (nonlinear_arith);
            assert((seg + 1) * (w_inc as int) == seg * (w_inc as int) + w_inc)
                by (nonlinear_arith);
        }
        radius = radius + r_inc;
        width = width + w_inc;
        seg = seg + 1;
    }
    (vert, indices)
}

/// The nine raw values of a triangle at `(x, y, z)` with the given size.
pub open spec fn tri_at_seq(x: int, y: int, z: int, size: int) -> Seq<int> {
    seq![x, y + size, z, x - size, y - size, z, x + size, y - size, z]
}

/// One triangle at `(x, y, z)`: a tip `size` above the center over two
/// base corners `size` away.
pub fn generate_triangle_at(x: i64, y: i64, z: i64, size: i64) -> (v: Vec<i64>)
    requires
        -SHAPE_MAX <= x <= SHAPE_MAX,
        -SHAPE_MAX <= y <= SHAPE_MAX,
        -SHAPE_MAX <= z <= SHAPE_MAX,
        0 <= size <= SHAPE_MAX,
    ensures
        ints(v@) =~= tri_at_seq(x as int, y as int, z as int, size as int),
{
    let mut v: Vec<i64> = Vec::new();
    v.push(x);
    v.push(y + size);
    v.push(z);
    v.push(x - size);
    v.push(y - size);
    v.push(z);
    v.push(x + size);
    v.push(y - size);
    v.push(z);
    v
}

} // verus!
