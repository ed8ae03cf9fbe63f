//! The first-person camera: a position with yaw and pitch, an Euler-angle
//! integrator for mouse and movement input, and the view-projection matrix
//! it produces. Yaw wraps around its maximum so the heading is cyclic;
//! pitch clamps at its maximum so the view cannot flip over the poles.

use vstd::prelude::*;
use crate::fixed::{ONE, PI_FX, abs_int, fx_mul, fx_mul_spec, fx_div, fx_div_spec,
    tdiv, tdiv_spec, fx_sin, fx_cos, sin_spec, cos_spec, lemma_prod_bound};
use crate::mat4::{Vec3, Mat4, Mat4i, m_bounded, mul_spec, mat_mul_checked, translation_spec,
    rotation_x_spec, rotation_y_spec};

verus! {

/// Movement speed in raw units per second.
pub const MOVEMENT_SPEED: i64 = 6_553_600;

/// Mouse sensitivity: raw angle per raw pixel (about 0.001).
pub const SENSITIVITY: i64 = 66;

/// Pitch clamps at a quarter turn: looking straight up or down.
pub const PITCH_MAX: i64 = 102944;

/// Yaw wraps at a half turn either way.
pub const YAW_MAX: i64 = 205888;

/// Largest magnitude accepted for a mouse delta in one update.
pub const MOUSE_MAX: i64 = 0x800_0000;

/// Largest frame time accepted, in raw seconds (one hour).
pub const DT_MAX: i64 = 235_929_600;

/// Largest magnitude the camera position may have before a move.
pub const CAM_LIMIT: i64 = 0x100_0000_0000;

/// Near clip plane distance in raw units.
pub const NEAR: i64 = 65536;

/// Far clip plane distance in raw units.
pub const FAR: i64 = 65_536_000;

/// The camera state: a continuous position and orientation.
#[derive(Clone, Copy, PartialEq, Eq, Structural, Debug)]
pub struct Camera {
    pub x: i64,
    pub y: i64,
    pub z: i64,
    pub yaw: i64,
    pub pitch: i64,
}

/// Yaw folded once back into `[-YAW_MAX, YAW_MAX]` when it stepped past
/// either end: the heading is cyclic.
pub open spec fn wrap_yaw_spec(y: int) -> int {
    if y > YAW_MAX as int {
        y - 2 * (YAW_MAX as int)
    } else if y < -(YAW_MAX as int) {
        y + 2 * (YAW_MAX as int)
    } else {
        y
    }
}

/// Pitch held at the poles: it clamps, it does not wrap.
pub open spec fn clamp_pitch_spec(p: int) -> int {
    if p > PITCH_MAX as int {
        PITCH_MAX as int
    } else if p < -(PITCH_MAX as int) {
        -(PITCH_MAX as int)
    } else {
        p
    }
}

/// The view-projection matrix: perspective projection after the inverse
/// camera placement (pitch, then yaw, then the negated position).
pub open spec fn view_spec(c: Camera, fovy: int, aspect: int) -> Mat4i {
    mul_spec(
        mul_spec(
            mul_spec(perspective_spec(fovy, aspect), rotation_x_spec(c.pitch as int)),
            rotation_y_spec(c.yaw as int),
        ),
        translation_spec(-(c.x as int), -(c.y as int), -(c.z as int)),
    )
}

/// The perspective projection: focal scale from the half field of view,
/// divided by the aspect ratio on the x axis, with the standard depth
/// mapping between `NEAR` and `FAR`.
pub open spec fn perspective_spec(fovy: int, aspect: int) -> Mat4i {
    let h = tdiv_spec(fovy, 2);
    let f = fx_div_spec(cos_spec(h), sin_spec(h));
    Mat4i {
        m00: fx_div_spec(f, aspect), m01: 0, m02: 0, m03: 0,
        m10: 0, m11: f, m12: 0, m13: 0,
        m20: 0, m21: 0, m22: -fx_div_spec((FAR as int) + (NEAR as int), (FAR as int) - (NEAR as int)),
        m23: -tdiv_spec(2 * (FAR as int) * (NEAR as int), (FAR as int) - (NEAR as int)),

        m30: 0, m31: 0, m32: -(ONE as int), m33: 0,
    }
}

/// All products of the view-projection chain stay in range, and neither
/// the half-angle sine nor the aspect ratio is zero.
pub open spec fn view_ok(c: Camera, fovy: int, aspect: int) -> bool {
    let p = perspective_spec(fovy, aspect);
    let m1 = mul_spec(p, rotation_x_spec(c.pitch as int));
    let m2 = mul_spec(m1, rotation_y_spec(c.yaw as int));
    &&& sin_spec(tdiv_spec(fovy, 2)) != 0
    &&& aspect != 0
    &&& m_bounded(m1)
    &&& m_bounded(m2)
    &&& m_bounded(mul_spec(m2, translation_spec(-(c.x as int), -(c.y as int), -(c.z as int))))
}

impl Camera {
    /// A camera at the origin, looking straight ahead.
    pub fn new() -> (c: Camera)
        ensures
            c == (Camera { x: 0, y: 0, z: 0, yaw: 0, pitch: 0 }),
    {
        Camera { x: 0, y: 0, z: 0, yaw: 0, pitch: 0 }
    }

    /// Integrates a mouse delta: the scaled x delta turns the yaw, which
    /// wraps; the scaled y delta tilts the pitch, which clamps.
    pub fn move_mouse(&mut self, x: i64, y: i64)
        requires
            -MOUSE_MAX <= x <= MOUSE_MAX,
            -MOUSE_MAX <= y <= MOUSE_MAX,
            -YAW_MAX <= old(self).yaw <= YAW_MAX,
            -PITCH_MAX <= old(self).pitch <= PITCH_MAX,
        ensures
            final(self).yaw == wrap_yaw_spec(
                old(self).yaw + fx_mul_spec(x as int, SENSITIVITY as int),
            ),
            final(self).pitch == clamp_pitch_spec(
                old(self).pitch + fx_mul_spec(y as int, SENSITIVITY as int),
            ),
            -YAW_MAX <= final(self).yaw <= YAW_MAX,
            -PITCH_MAX <= final(self).pitch <= PITCH_MAX,
            final(self).x == old(self).x,
            final(self).y == old(self).y,
            final(self).z == old(self).z,
    {
        let dyaw = fx_mul(x, SENSITIVITY);
        self.yaw = self.yaw + dyaw;
        if self.yaw > YAW_MAX {
            self.yaw = self.yaw - 2 * YAW_MAX;
        } else if self.yaw < -YAW_MAX {
            self.yaw = self.yaw + 2 * YAW_MAX;
        }
        let dpitch = fx_mul(y, SENSITIVITY);
        self.pitch = self.pitch + dpitch;
        if self.pitch > PITCH_MAX {
            self.pitch = PITCH_MAX;
        } else if self.pitch < -PITCH_MAX {
            self.pitch = -PITCH_MAX;
        }
    }

    /// Steps forward along the yaw heading.
    pub fn move_forward(&mut self, delta_time: i64)
        requires
            0 <= delta_time <= DT_MAX,
            -CAM_LIMIT <= old(self).x <= CAM_LIMIT,
            -CAM_LIMIT <= old(self).z <= CAM_LIMIT,
            -YAW_MAX <= old(self).yaw <= YAW_MAX,
        ensures
            final(self).x == old(self).x + fx_mul_spec(
                fx_mul_spec(MOVEMENT_SPEED as int, delta_time as int),
                sin_spec(old(self).yaw as int),
            ),
            final(self).z == old(self).z - fx_mul_spec(
                fx_mul_spec(MOVEMENT_SPEED as int, delta_time as int),
                cos_spec(old(self).yaw as int),
            ),
            final(self).y == old(self).y,
            final(self).yaw == old(self).yaw,
            final(self).pitch == old(self).pitch,
    {
        let step = fx_mul(MOVEMENT_SPEED, delta_time);
        let sv = fx_sin(self.yaw);
        let cv = fx_cos(self.yaw);
        proof {
            lemma_prod_bound(step as int, sv as int, 23_592_960_000, ONE as int);
            lemma_prod_bound(step as int, cv as int, 23_592_960_000, ONE as int);
        }
        self.x = self.x + fx_mul(step, sv);
        self.z = self.z - fx_mul(step, cv);
    }

    /// Steps backward along the yaw heading.
    pub fn move_backward(&mut self, delta_time: i64)
        requires
            0 <= delta_time <= DT_MAX,
            -CAM_LIMIT <= old(self).x <= CAM_LIMIT,
            -CAM_LIMIT <= old(self).z <= CAM_LIMIT,
            -YAW_MAX <= old(self).yaw <= YAW_MAX,
        ensures
            final(self).x == old(self).x - fx_mul_spec(
                fx_mul_spec(MOVEMENT_SPEED as int, delta_time as int),
                sin_spec(old(self).yaw as int),
            ),
            final(self).z == old(self).z + fx_mul_spec(
                fx_mul_spec(MOVEMENT_SPEED as int, delta_time as int),
                cos_spec(old(self).yaw as int),
            ),
            final(self).y == old(self).y,
            final(self).yaw == old(self).yaw,
            final(self).pitch == old(self).pitch,
    {
        let step = fx_mul(MOVEMENT_SPEED, delta_time);
        let sv = fx_sin(self.yaw);
        let cv = fx_cos(self.yaw);
        proof {
            lemma_prod_bound(step as int, sv as int, 23_592_960_000, ONE as int);
            lemma_prod_bound(step as int, cv as int, 23_592_960_000, ONE as int);
        }
        self.x = self.x - fx_mul(step, sv);
        self.z = self.z + fx_mul(step, cv);
    }

    /// Strafes left, perpendicular to the yaw heading.
    pub fn move_left(&mut self, delta_time: i64)
        requires
            0 <= delta_time <= DT_MAX,
            -CAM_LIMIT <= old(self).x <= CAM_LIMIT,
            -CAM_LIMIT <= old(self).z <= CAM_LIMIT,
            -YAW_MAX <= old(self).yaw <= YAW_MAX,
        ensures
            final(self).x == old(self).x - fx_mul_spec(
                fx_mul_spec(MOVEMENT_SPEED as int, delta_time as int),
                cos_spec(old(self).yaw as int),
            ),
            final(self).z == old(self).z - fx_mul_spec(
                fx_mul_spec(MOVEMENT_SPEED as int, delta_time as int),
                sin_spec(old(self).yaw as int),
            ),
            final(self).y == old(self).y,
            final(self).yaw == old(self).yaw,
            final(self).pitch == old(self).pitch,
    {
        let step = fx_mul(MOVEMENT_SPEED, delta_time);
        let sv = fx_sin(self.yaw);
        let cv = fx_cos(self.yaw);
        proof {
            lemma_prod_bound(step as int, sv as int, 23_592_960_000, ONE as int);
            lemma_prod_bound(step as int, cv as int, 23_592_960_000, ONE as int);
        }
        self.x = self.x - fx_mul(step, cv);
        self.z = self.z - fx_mul(step, sv);
    }

    /// Strafes right, perpendicular to the yaw heading.
    pub fn move_right(&mut self, delta_time: i64)
        requires
            0 <= delta_time <= DT_MAX,
            -CAM_LIMIT <= old(self).x <= CAM_LIMIT,
            -CAM_LIMIT <= old(self).z <= CAM_LIMIT,
            -YAW_MAX <= old(self).yaw <= YAW_MAX,
        ensures
            final(self).x == old(self).x + fx_mul_spec(
                fx_mul_spec(MOVEMENT_SPEED as int, delta_time as int),
                cos_spec(old(self).yaw as int),
            ),
            final(self).z == old(self).z + fx_mul_spec(
                fx_mul_spec(MOVEMENT_SPEED as int, delta_time as int),
                sin_spec(old(self).yaw as int),
            ),
            final(self).y == old(self).y,
            final(self).yaw == old(self).yaw,
            final(self).pitch == old(self).pitch,
    {
        let step = fx_mul(MOVEMENT_SPEED, delta_time);
        let sv = fx_sin(self.yaw);
        let cv = fx_cos(self.yaw);
        proof {
            lemma_prod_bound(step as int, sv as int, 23_592_960_000, ONE as int);
            lemma_prod_bound(step as int, cv as int, 23_592_960_000, ONE as int);
        }
        self.x = self.x + fx_mul(step, cv);
        self.z = self.z + fx_mul(step, sv);
    }

    /// Rises along the fixed vertical axis.
    pub fn move_up(&mut self, delta_time: i64)
        requires
            0 <= delta_time <= DT_MAX,
            -CAM_LIMIT <= old(self).y <= CAM_LIMIT,
        ensures
            final(self).y == old(self).y + fx_mul_spec(MOVEMENT_SPEED as int, delta_time as int),
            final(self).x == old(self).x,
            final(self).z == old(self).z,
            final(self).yaw == old(self).yaw,
            final(self).pitch == old(self).pitch,
    {
        self.y = self.y + fx_mul(MOVEMENT_SPEED, delta_time);
    }

    /// Sinks along the fixed vertical axis.
    pub fn move_down(&mut self, delta_time: i64)
        requires
            0 <= delta_time <= DT_MAX,
            -CAM_LIMIT <= old(self).y <= CAM_LIMIT,
        ensures
            final(self).y == old(self).y - fx_mul_spec(MOVEMENT_SPEED as int, delta_time as int),
            final(self).x == old(self).x,
            final(self).z == old(self).z,
            final(self).yaw == old(self).yaw,
            final(self).pitch == old(self).pitch,
    {
        self.y = self.y - fx_mul(MOVEMENT_SPEED, delta_time);
    }

    /// The view-projection matrix for the current camera state; `None`
    /// exactly when the field of view degenerates, the aspect ratio is
    /// zero, or a product leaves the entry range.
    pub fn make_view_transform(&self, fovy: i64, aspect: i64) -> (r: Option<Mat4>)
        requires
            -PI_FX <= fovy <= PI_FX,
            aspect > i64::MIN,
            -CAM_LIMIT <= self.x <= CAM_LIMIT,
            -CAM_LIMIT <= self.y <= CAM_LIMIT,
            -CAM_LIMIT <= self.z <= CAM_LIMIT,
            -YAW_MAX <= self.yaw <= YAW_MAX,
            -PITCH_MAX <= self.pitch <= PITCH_MAX,
        ensures
            match r {
                Some(m) => m@ == view_spec(*self, fovy as int, aspect as int) && view_ok(
                    *self,
                    fovy as int,
                    aspect as int,
                ),
                None => !view_ok(*self, fovy as int, aspect as int),
            },
    {
        let h = tdiv(fovy, 2);
        let s = fx_sin(h);
        if s == 0 {
            return None;
        }
        if aspect == 0 {
            return None;
        }
        let c = fx_cos(h);
        let f = fx_div(c, s);
        let fa = fx_div(f, aspect);
        proof {
            assert(abs_int(f as int) <= (ONE as int) * (ONE as int));
            assert(abs_int(fa as int) <= (ONE as int) * (ONE as int) * (ONE as int));
        }
        let d22 = fx_div(FAR + NEAR, FAR - NEAR);
        let d23 = tdiv(2 * FAR * NEAR, FAR - NEAR);
        let p = Mat4 {
            m00: fa, m01: 0, m02: 0, m03: 0,
            m10: 0, m11: f, m12: 0, m13: 0,
            m20: 0, m21: 0, m22: -d22, m23: -d23,
            m30: 0, m31: 0, m32: -ONE, m33: 0,
        };
        let rx = Mat4::rotation_x(self.pitch);
        let m1 = match mat_mul_checked(&p, &rx) {
            Some(m) => m,
            None => {
                return None;
            },
        };
        let ry = Mat4::rotation_y(self.yaw);
        let m2 = match mat_mul_checked(&m1, &ry) {
            Some(m) => m,
            None => {
                return None;
            },
        };
        let neg_pos = Vec3 { x: -self.x, y: -self.y, z: -self.z };
        let t = Mat4::translation(&neg_pos);
        match mat_mul_checked(&m2, &t) {
            Some(m) => Some(m),
            None => None,
        }
    }
}

/// Yaw wraps: a delta that would push yaw past the maximum by some amount
/// lands that same amount past the opposite end, never out of range.
pub proof fn lemma_yaw_wraps(yaw0: int, d: int)
    requires
        yaw0 + d > YAW_MAX as int,
    ensures
        wrap_yaw_spec(yaw0 + d) == -(YAW_MAX as int) + (yaw0 + d - (YAW_MAX as int)),
{
}

/// Pitch clamps: enough negative input drives pitch to exactly the
/// negative maximum, and any further negative input keeps it there.
pub proof fn lemma_pitch_clamps(pitch0: int, d: int, d2: int)
    requires
        pitch0 + d <= -(PITCH_MAX as int),
        d2 <= 0,
    ensures
        clamp_pitch_spec(pitch0 + d) == -(PITCH_MAX as int),
        clamp_pitch_spec(clamp_pitch_spec(pitch0 + d) + d2) == -(PITCH_MAX as int),
{
}

} // verus!
