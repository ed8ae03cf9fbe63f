//! Random RGBA vertex colors, in raw fixed-point: each drawn channel lies
//! in `[0, ONE)`, the half-open unit range a uniform unit draw has.
//! Randomness comes from the rand crate behind trusted wrappers;
//! everything proved here holds whatever values come back.

use vstd::prelude::*;
use rand::RngCore;
use rand::SeedableRng;
use crate::fixed::ONE;

verus! {

/// Raw alpha for the faint transparency band's lower edge (0.1).
pub const ALPHA_MIN: i64 = 6553;

/// Raw alpha for the faint transparency band's upper edge (0.2).
pub const ALPHA_MAX: i64 = 13106;

#[verifier::external_type_specification]
#[verifier::external_body]
pub struct ExStdRng(rand::rngs::StdRng);

/// Relies on rand::random: one value from the thread-local generator;
/// nothing is promised of it.
#[verifier::external_body]
fn random_u32() -> u32 {
    rand::random::<u32>()
}

/// Relies on rand::SeedableRng::seed_from_u64 for StdRng: a generator
/// derived from the given seed.
#[verifier::external_body]
fn rng_from_seed(seed: u64) -> rand::rngs::StdRng {
    rand::rngs::StdRng::seed_from_u64(seed)
}

/// Relies on rand::RngCore::next_u32 for StdRng: the generator's next
/// value; nothing is promised of it.
#[verifier::external_body]
fn rng_next_u32(rng: &mut rand::rngs::StdRng) -> u32 {
    rng.next_u32()
}

/// The four channels of vertex `v`: red, green and blue anywhere in
/// `[0, ONE)`, alpha exactly `ONE`.
pub open spec fn rgba_ok(s: Seq<i64>, v: int) -> bool {
    &&& 0 <= s[4 * v] < ONE
    &&& 0 <= s[4 * v + 1] < ONE
    &&& 0 <= s[4 * v + 2] < ONE
    &&& s[4 * v + 3] == ONE
}

/// The twelve values of triangle `t`: three vertices sharing one color,
/// channels in `[0, ONE)`, alpha in the faint band.
pub open spec fn tri_rgba_ok(s: Seq<i64>, t: int) -> bool {
    &&& 0 <= s[12 * t] < ONE
    &&& 0 <= s[12 * t + 1] < ONE
    &&& 0 <= s[12 * t + 2] < ONE
    &&& ALPHA_MIN <= s[12 * t + 3] <= ALPHA_MAX
    &&& s[12 * t + 4] == s[12 * t]
    &&& s[12 * t + 5] == s[12 * t + 1]
    &&& s[12 * t + 6] == s[12 * t + 2]
    &&& s[12 * t + 7] == s[12 * t + 3]
    &&& s[12 * t + 8] == s[12 * t]
    &&& s[12 * t + 9] == s[12 * t + 1]
    &&& s[12 * t + 10] == s[12 * t + 2]
    &&& s[12 * t + 11] == s[12 * t + 3]
}

/// A random channel value in `[0, ONE)`.
fn random_channel() -> (c: i64)
    ensures
        0 <= c < ONE,
{
    (random_u32() % 65536) as i64
}

/// A random channel value in `[0, ONE)` from a seeded generator.
fn seeded_channel(rng: &mut rand::rngs::StdRng) -> (c: i64)
    ensures
        0 <= c < ONE,
{
    (rng_next_u32(rng) % 65536) as i64
}

/// Random RGBA values for the given vertex count: four raw channels per
/// vertex, alpha fully opaque.
pub fn make_colors(vertex_count: u32) -> (r: Vec<i64>)
    requires
        vertex_count < 0x4000_0000,
    ensures
        r@.len() == 4 * vertex_count,
        forall|v: int| 0 <= v < vertex_count ==> #[trigger] rgba_ok(r@, v),
{
    let mut out: Vec<i64> = Vec::new();
    let mut v: u32 = 0;
    while v < vertex_count
        invariant
            vertex_count < 0x4000_0000,
            0 <= v <= vertex_count,
            out@.len() == 4 * v,
            forall|t: int| 0 <= t < v ==> #[trigger] rgba_ok(out@, t),
        decreases vertex_count - v,
    {
        let ghost pre = out@;
        out.push(random_channel());
        out.push(random_channel());
        out.push(random_channel());
        out.push(ONE);
        proof {
            assert forall|u: int| 0 <= u < v + 1 implies rgba_ok(out@, u) by {
                if u < v {
                    assert(rgba_ok(pre, u));
                }
            }
        }
        v = v + 1;
    }
    out
}

/// Random RGBA values from a deterministic seed: four raw channels per
/// vertex, alpha fully opaque.
pub fn make_colors_seeded(vertex_count: u32, seed: u64) -> (r: Vec<i64>)
    requires
        vertex_count < 0x4000_0000,
    ensures
        r@.len() == 4 * vertex_count,
        forall|v: int| 0 <= v < vertex_count ==> #[trigger] rgba_ok(r@, v),
{
    let mut rng = rng_from_seed(seed);
    let mut out: Vec<i64> = Vec::new();
    let mut v: u32 = 0;
    while v < vertex_count
        invariant
            vertex_count < 0x4000_0000,
            0 <= v <= vertex_count,
            out@.len() == 4 * v,
            forall|t: int| 0 <= t < v ==> #[trigger] rgba_ok(out@, t),
        decreases vertex_count - v,
    {
        let ghost pre = out@;
        out.push(seeded_channel(&mut rng));
        out.push(seeded_channel(&mut rng));
        out.push(seeded_channel(&mut rng));
        out.push(ONE);
        proof {
            assert forall|u: int| 0 <= u < v + 1 implies rgba_ok(out@, u) by {
                if u < v {
                    assert(rgba_ok(pre, u));
                }
            }
        }
        v = v + 1;
    }
    out
}

/// One random, faintly transparent color per triangle, repeated for each
/// of its three vertices.
pub fn make_colors_transparent_triangle(triangle_count: u32) -> (r: Vec<i64>)
    requires
        triangle_count < 0x1000_0000,
    ensures
        r@.len() == 12 * triangle_count,
        forall|t: int| 0 <= t < triangle_count ==> #[trigger] tri_rgba_ok(r@, t),
{
    let mut out: Vec<i64> = Vec::new();
    let mut t: u32 = 0;
    while t < triangle_count
        invariant
            triangle_count < 0x1000_0000,
            0 <= t <= triangle_count,
            out@.len() == 12 * t,
            forall|u: int| 0 <= u < t ==> #[trigger] tri_rgba_ok(out@, u),
        decreases triangle_count - t,
    {
        let ghost pre = out@;
        let red = random_channel();
        let green = random_channel();
        let blue = random_channel();
        let a0 = random_channel();
        let alpha = ((a0 as u64) / 10) as i64 + ALPHA_MIN;
        out.push(red);
        out.push(green);
        out.push(blue);
        out.push(alpha);
        out.push(red);
        out.push(green);
        out.push(blue);
        out.push(alpha);
        out.push(red);
        out.push(green);
        out.push(blue);
        out.push(alpha);
        proof {
            assert forall|u: int| 0 <= u < t + 1 implies tri_rgba_ok(out@, u) by {
                if u < t {
                    assert(tri_rgba_ok(pre, u));
                }
            }
        }
        t = t + 1;
    }
    out
}

} // verus!
