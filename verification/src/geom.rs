use vstd::prelude::*;
use crate::fx::{
    fxadd, fxadd_s, fxdiv, fxdiv_s, fxmul, fxmul_s, fxneg, fxneg_s, fxsub, fxsub_s, sat_coord,
    satc, COORD_LIMIT, FX_ONE,
};
use crate::raster::Point2;

verus! {

/// A point (or translation) in world space, in fixed-point units.
#[derive(Clone, Copy, PartialEq, Eq, Structural)]
pub struct Point3 {
    pub x: i64,
    pub y: i64,
    pub z: i64,
}

/// A rotation given as quaternion components in fixed-point units. The
/// renderer treats it as a pose orientation; callers are expected to
/// supply (approximately) unit quaternions, as every rotation constructor
/// of the usual math libraries does.
#[derive(Clone, Copy, PartialEq, Eq, Structural)]
pub struct Quat {
    pub x: i64,
    pub y: i64,
    pub z: i64,
    pub w: i64,
}

/// A 4 x 4 matrix of fixed-point entries, row-major: entry `mRC` sits in
/// row `R`, column `C`, and a point transforms as a column vector
/// `M * (x, y, z, 1)`.
#[derive(Clone, Copy, PartialEq, Eq, Structural)]
pub struct Mat4 {
    pub m00: i64,
    pub m01: i64,
    pub m02: i64,
    pub m03: i64,
    pub m10: i64,
    pub m11: i64,
    pub m12: i64,
    pub m13: i64,
    pub m20: i64,
    pub m21: i64,
    pub m22: i64,
    pub m23: i64,
    pub m30: i64,
    pub m31: i64,
    pub m32: i64,
    pub m33: i64,
}

/// The saturating fixed-point dot product of two rows of four.
pub open spec fn dot4_s(
    a0: i64,
    a1: i64,
    a2: i64,
    a3: i64,
    b0: i64,
    b1: i64,
    b2: i64,
    b3: i64,
) -> i64 {
    fxadd_s(
        fxadd_s(fxmul_s(a0, b0), fxmul_s(a1, b1)),
        fxadd_s(fxmul_s(a2, b2), fxmul_s(a3, b3)),
    )
}

/// Compute the saturating fixed-point dot product of two rows of four.
pub fn dot4(a0: i64, a1: i64, a2: i64, a3: i64, b0: i64, b1: i64, b2: i64, b3: i64) -> (r: i64)
    ensures
        r == dot4_s(a0, a1, a2, a3, b0, b1, b2, b3),
{
    fxadd(fxadd(fxmul(a0, b0), fxmul(a1, b1)), fxadd(fxmul(a2, b2), fxmul(a3, b3)))
}

/// The fixed-point product of two matrices: entry `(i, j)` is the
/// saturating dot product of row `i` of `a` with column `j` of `b`.
pub open spec fn mat_mul_s(a: Mat4, b: Mat4) -> Mat4 {
    Mat4 {
        m00: dot4_s(a.m00, a.m01, a.m02, a.m03, b.m00, b.m10, b.m20, b.m30),
        m01: dot4_s(a.m00, a.m01, a.m02, a.m03, b.m01, b.m11, b.m21, b.m31),
        m02: dot4_s(a.m00, a.m01, a.m02, a.m03, b.m02, b.m12, b.m22, b.m32),
        m03: dot4_s(a.m00, a.m01, a.m02, a.m03, b.m03, b.m13, b.m23, b.m33),
        m10: dot4_s(a.m10, a.m11, a.m12, a.m13, b.m00, b.m10, b.m20, b.m30),
        m11: dot4_s(a.m10, a.m11, a.m12, a.m13, b.m01, b.m11, b.m21, b.m31),
        m12: dot4_s(a.m10, a.m11, a.m12, a.m13, b.m02, b.m12, b.m22, b.m32),
        m13: dot4_s(a.m10, a.m11, a.m12, a.m13, b.m03, b.m13, b.m23, b.m33),
        m20: dot4_s(a.m20, a.m21, a.m22, a.m23, b.m00, b.m10, b.m20, b.m30),
        m21: dot4_s(a.m20, a.m21, a.m22, a.m23, b.m01, b.m11, b.m21, b.m31),
        m22: dot4_s(a.m20, a.m21, a.m22, a.m23, b.m02, b.m12, b.m22, b.m32),
        m23: dot4_s(a.m20, a.m21, a.m22, a.m23, b.m03, b.m13, b.m23, b.m33),
        m30: dot4_s(a.m30, a.m31, a.m32, a.m33, b.m00, b.m10, b.m20, b.m30),
        m31: dot4_s(a.m30, a.m31, a.m32, a.m33, b.m01, b.m11, b.m21, b.m31),
        m32: dot4_s(a.m30, a.m31, a.m32, a.m33, b.m02, b.m12, b.m22, b.m32),
        m33: dot4_s(a.m30, a.m31, a.m32, a.m33, b.m03, b.m13, b.m23, b.m33),
    }
}

/// The rotation matrix of a quaternion (the standard closed form), as the
/// upper-left block of a 4 x 4 matrix with no translation.
pub open spec fn rot_mat_s(q: Quat) -> Mat4 {
    let xx = fxmul_s(q.x, q.x);
    let yy = fxmul_s(q.y, q.y);
    let zz = fxmul_s(q.z, q.z);
    let xy = fxmul_s(q.x, q.y);
    let xz = fxmul_s(q.x, q.z);
    let yz = fxmul_s(q.y, q.z);
    let wx = fxmul_s(q.w, q.x);
    let wy = fxmul_s(q.w, q.y);
    let wz = fxmul_s(q.w, q.z);
    Mat4 {
        m00: fxsub_s(FX_ONE, fxadd_s(fxadd_s(yy, yy), fxadd_s(zz, zz))),
        m01: fxsub_s(fxadd_s(xy, xy), fxadd_s(wz, wz)),
        m02: fxadd_s(fxadd_s(xz, xz), fxadd_s(wy, wy)),
        m03: 0,
        m10: fxadd_s(fxadd_s(xy, xy), fxadd_s(wz, wz)),
        m11: fxsub_s(FX_ONE, fxadd_s(fxadd_s(xx, xx), fxadd_s(zz, zz))),
        m12: fxsub_s(fxadd_s(yz, yz), fxadd_s(wx, wx)),
        m13: 0,
        m20: fxsub_s(fxadd_s(xz, xz), fxadd_s(wy, wy)),
        m21: fxadd_s(fxadd_s(yz, yz), fxadd_s(wx, wx)),
        m22: fxsub_s(FX_ONE, fxadd_s(fxadd_s(xx, xx), fxadd_s(yy, yy))),
        m23: 0,
        m30: 0,
        m31: 0,
        m32: 0,
        m33: FX_ONE,
    }
}

/// The pose matrix of a rotation followed by a translation: the rotation
/// block with `t` as the fourth column.
pub open spec fn pose_mat_s(q: Quat, t: Point3) -> Mat4 {
    let r = rot_mat_s(q);
    Mat4 { m03: t.x, m13: t.y, m23: t.z, ..r }
}

/// The inverse of the pose `rotate(q) then translate(t)` for a unit
/// rotation, in closed form: the transposed rotation block and the
/// translation `-R^T * t`.
pub open spec fn pose_inverse_s(q: Quat, t: Point3) -> Mat4 {
    let r = rot_mat_s(q);
    Mat4 {
        m00: r.m00,
        m01: r.m10,
        m02: r.m20,
        m03: fxneg_s(dot4_s(r.m00, r.m10, r.m20, 0, t.x, t.y, t.z, 0)),
        m10: r.m01,
        m11: r.m11,
        m12: r.m21,
        m13: fxneg_s(dot4_s(r.m01, r.m11, r.m21, 0, t.x, t.y, t.z, 0)),
        m20: r.m02,
        m21: r.m12,
        m22: r.m22,
        m23: fxneg_s(dot4_s(r.m02, r.m12, r.m22, 0, t.x, t.y, t.z, 0)),
        m30: 0,
        m31: 0,
        m32: 0,
        m33: FX_ONE,
    }
}

impl Mat4 {
    /// Multiply two matrices in fixed point.
    pub fn mul(&self, b: &Mat4) -> (r: Mat4)
        ensures
            r == mat_mul_s(*self, *b),
    {
        Mat4 {
            m00: dot4(self.m00, self.m01, self.m02, self.m03, b.m00, b.m10, b.m20, b.m30),
            m01: dot4(self.m00, self.m01, self.m02, self.m03, b.m01, b.m11, b.m21, b.m31),
            m02: dot4(self.m00, self.m01, self.m02, self.m03, b.m02, b.m12, b.m22, b.m32),
            m03: dot4(self.m00, self.m01, self.m02, self.m03, b.m03, b.m13, b.m23, b.m33),
            m10: dot4(self.m10, self.m11, self.m12, self.m13, b.m00, b.m10, b.m20, b.m30),
            m11: dot4(self.m10, self.m11, self.m12, self.m13, b.m01, b.m11, b.m21, b.m31),
            m12: dot4(self.m10, self.m11, self.m12, self.m13, b.m02, b.m12, b.m22, b.m32),
            m13: dot4(self.m10, self.m11, self.m12, self.m13, b.m03, b.m13, b.m23, b.m33),
            m20: dot4(self.m20, self.m21, self.m22, self.m23, b.m00, b.m10, b.m20, b.m30),
            m21: dot4(self.m20, self.m21, self.m22, self.m23, b.m01, b.m11, b.m21, b.m31),
            m22: dot4(self.m20, self.m21, self.m22, self.m23, b.m02, b.m12, b.m22, b.m32),
            m23: dot4(self.m20, self.m21, self.m22, self.m23, b.m03, b.m13, b.m23, b.m33),
            m30: dot4(self.m30, self.m31, self.m32, self.m33, b.m00, b.m10, b.m20, b.m30),
            m31: dot4(self.m30, self.m31, self.m32, self.m33, b.m01, b.m11, b.m21, b.m31),
            m32: dot4(self.m30, self.m31, self.m32, self.m33, b.m02, b.m12, b.m22, b.m32),
            m33: dot4(self.m30, self.m31, self.m32, self.m33, b.m03, b.m13, b.m23, b.m33),
        }
    }

    /// Build the pose matrix of a rotation followed by a translation.
    pub fn from_rotation_translation(q: Quat, t: Point3) -> (r: Mat4)
        ensures
            r == pose_mat_s(q, t),
    {
        let rot = rot_mat(q);
        Mat4 { m03: t.x, m13: t.y, m23: t.z, ..rot }
    }

    /// Build the closed-form inverse of the pose
    /// `rotate(q) then translate(t)`, valid for unit rotations.
    pub fn pose_inverse(q: Quat, t: Point3) -> (r: Mat4)
        ensures
            r == pose_inverse_s(q, t),
    {
        let rot = rot_mat(q);
        Mat4 {
            m00: rot.m00,
            m01: rot.m10,
            m02: rot.m20,
            m03: fxneg(dot4(rot.m00, rot.m10, rot.m20, 0, t.x, t.y, t.z, 0)),
            m10: rot.m01,
            m11: rot.m11,
            m12: rot.m21,
            m13: fxneg(dot4(rot.m01, rot.m11, rot.m21, 0, t.x, t.y, t.z, 0)),
            m20: rot.m02,
            m21: rot.m12,
            m22: rot.m22,
            m23: fxneg(dot4(rot.m02, rot.m12, rot.m22, 0, t.x, t.y, t.z, 0)),
            m30: 0,
            m31: 0,
            m32: 0,
            m33: FX_ONE,
        }
    }
}

/// Compute the rotation matrix of a quaternion.
pub fn rot_mat(q: Quat) -> (r: Mat4)
    ensures
        r == rot_mat_s(q),
{
    let xx = fxmul(q.x, q.x);
    let yy = fxmul(q.y, q.y);
    let zz = fxmul(q.z, q.z);
    let xy = fxmul(q.x, q.y);
    let xz = fxmul(q.x, q.z);
    let yz = fxmul(q.y, q.z);
    let wx = fxmul(q.w, q.x);
    let wy = fxmul(q.w, q.y);
    let wz = fxmul(q.w, q.z);
    Mat4 {
        m00: fxsub(FX_ONE, fxadd(fxadd(yy, yy), fxadd(zz, zz))),
        m01: fxsub(fxadd(xy, xy), fxadd(wz, wz)),
        m02: fxadd(fxadd(xz, xz), fxadd(wy, wy)),
        m03: 0,
        m10: fxadd(fxadd(xy, xy), fxadd(wz, wz)),
        m11: fxsub(FX_ONE, fxadd(fxadd(xx, xx), fxadd(zz, zz))),
        m12: fxsub(fxadd(yz, yz), fxadd(wx, wx)),
        m13: 0,
        m20: fxsub(fxadd(xz, xz), fxadd(wy, wy)),
        m21: fxadd(fxadd(yz, yz), fxadd(wx, wx)),
        m22: fxsub(FX_ONE, fxadd(fxadd(xx, xx), fxadd(yy, yy))),
        m23: 0,
        m30: 0,
        m31: 0,
        m32: 0,
        m33: FX_ONE,
    }
}

/// The screen point a projected vertex lands on when its clip-space `w`
/// is not positive: a fixed corner far outside every frame, so that such
/// vertices can never place a bounding box over visible pixels on their
/// own.
pub open spec fn far_corner() -> Point2 {
    Point2 { x: (-COORD_LIMIT) as i64, y: (-COORD_LIMIT) as i64 }
}

/// Project a world-space point through a view-projection matrix into
/// screen space: apply the matrix to `(p, 1)`, divide by the clip-space
/// `w`, then map normalized coordinates to pixels — scale x by the buffer
/// width, scale y by the negated height (screen y grows downward while
/// device y grows upward), and translate by half the buffer size. Points
/// with non-positive `w` (on or behind the eye plane, where the
/// perspective division is meaningless) map to `far_corner()`.
pub open spec fn project_s(m: Mat4, p: Point3, w: u32, h: u32) -> Point2 {
    let cx = dot4_s(m.m00, m.m01, m.m02, m.m03, p.x, p.y, p.z, FX_ONE);
    let cy = dot4_s(m.m10, m.m11, m.m12, m.m13, p.x, p.y, p.z, FX_ONE);
    let cw = dot4_s(m.m30, m.m31, m.m32, m.m33, p.x, p.y, p.z, FX_ONE);
    if cw <= 0 {
        far_corner()
    } else {
        let nx = fxdiv_s(cx, cw);
        let ny = fxdiv_s(cy, cw);
        Point2 {
            x: satc(nx * w + w * (FX_ONE as int / 2)),
            y: satc(h * (FX_ONE as int / 2) - ny * h),
        }
    }
}

/// Project a world-space point to a screen-space point.
pub fn project_point(m: &Mat4, p: Point3, w: u32, h: u32) -> (r: Point2)
    ensures
        r == project_s(*m, p, w, h),
        r.bounded(),
{
    let cx: i64 = dot4(m.m00, m.m01, m.m02, m.m03, p.x, p.y, p.z, FX_ONE);
    let cy: i64 = dot4(m.m10, m.m11, m.m12, m.m13, p.x, p.y, p.z, FX_ONE);
    let cw: i64 = dot4(m.m30, m.m31, m.m32, m.m33, p.x, p.y, p.z, FX_ONE);
    if cw <= 0 {
        Point2 { x: -COORD_LIMIT, y: -COORD_LIMIT }
    } else {
        let nx: i64 = fxdiv(cx, cw);
        let ny: i64 = fxdiv(cy, cw);
        let half: i128 = 32768;
        proof {
            assert(-0x80000000000000000000000000 <= (nx as int) * (w as int)
                <= 0x80000000000000000000000000 && -0x80000000000000000000000000 <= (ny as int) * (
            h as int) <= 0x80000000000000000000000000) by (nonlinear_arith)
                requires
                    -0x8000000000000000 <= nx as int <= 0x7fffffffffffffff,
                    -0x8000000000000000 <= ny as int <= 0x7fffffffffffffff,
                    0 <= w as int <= 0x100000000,
                    0 <= h as int <= 0x100000000,
            ;
        }
        let sx: i128 = (nx as i128) * (w as i128) + (w as i128) * half;
        let sy: i128 = (h as i128) * half - (ny as i128) * (h as i128);
        Point2 { x: sat_coord(sx), y: sat_coord(sy) }
    }
}

} // verus!
