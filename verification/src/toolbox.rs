//! The closed-form flight path for an animated body: a deterministic,
//! continuous, periodic curve of one time scalar. The body circles the
//! scene at a fixed radius while gently pitching and rolling; the yaw
//! follows the time directly so the body turns along its path.

use vstd::prelude::*;
use crate::fixed::{fx_mul, fx_mul_spec, fx_sin, fx_cos, sin_spec, cos_spec, ANGLE_LIMIT};

verus! {

/// Radius of the circular path, in raw units (20.0).
pub const PATH_RADIUS: i64 = 1_310_720;

/// Amplitude of the pitch oscillation, in raw angle units (about 0.2).
pub const PATH_PITCH_AMPL: i64 = 13_107;

/// Amplitude of the roll oscillation, in raw angle units (about 0.3).
pub const PATH_ROLL_AMPL: i64 = 19_660;

/// One sample of the path: where the body is and how it banks.
#[derive(Clone, Copy, PartialEq, Eq, Structural, Debug)]
pub struct Heading {
    pub x: i64,
    pub z: i64,
    pub pitch: i64,
    pub yaw: i64,
    pub roll: i64,
}

/// Samples the path at the given raw time: a circle of `PATH_RADIUS` in
/// the ground plane, yaw equal to the time, and small sinusoidal pitch and
/// roll. A pure function of the one time scalar.
pub fn simple_heading_animation(time: i64) -> (h: Heading)
    requires
        -ANGLE_LIMIT <= time <= ANGLE_LIMIT,
    ensures
        h.x == fx_mul_spec(PATH_RADIUS as int, sin_spec(time as int)),
        h.z == fx_mul_spec(PATH_RADIUS as int, cos_spec(time as int)),
        h.yaw == time,
        h.pitch == fx_mul_spec(PATH_PITCH_AMPL as int, cos_spec(time as int)),
        h.roll == fx_mul_spec(PATH_ROLL_AMPL as int, sin_spec(time as int)),
        -PATH_RADIUS <= h.x <= PATH_RADIUS,
        -PATH_RADIUS <= h.z <= PATH_RADIUS,
        -PATH_PITCH_AMPL <= h.pitch <= PATH_PITCH_AMPL,
        -PATH_ROLL_AMPL <= h.roll <= PATH_ROLL_AMPL,
{
    let sv = fx_sin(time);
    let cv = fx_cos(time);
    Heading {
        x: fx_mul(PATH_RADIUS, sv),
        z: fx_mul(PATH_RADIUS, cv),
        pitch: fx_mul(PATH_PITCH_AMPL, cv),
        yaw: time,
        roll: fx_mul(PATH_ROLL_AMPL, sv),
    }
}

} // verus!
