//! Unit quaternions over the fixed-point scalar, used for the primitives'
//! world rotations.
//!
//! Rotation of a vector uses the two-cross-product form
//! `v + w*t + qv x t` with `t = (qv x v) * 2`, stated exactly over the
//! fixed-point operations by [`q_rotate_s`].

use crate::fx::{fx_neg, neg_s, Fx, SCALE};
use crate::vec3::{
    v3_add, v3_add_s, v3_cross, v3_cross_s, v3_scale, v3_scale_s, V3s, Vec3,
};
use vstd::prelude::*;

verus! {

/// An executable quaternion `x*i + y*j + z*k + w`; the scene construction
/// hands rotations in normalized.
#[derive(Clone, Copy, Debug, PartialEq, Eq, Structural)]
pub struct Quat {
    pub x: Fx,
    pub y: Fx,
    pub z: Fx,
    pub w: Fx,
}

/// The mathematical value of a [`Quat`].
pub struct Q4s {
    pub x: int,
    pub y: int,
    pub z: int,
    pub w: int,
}

impl Quat {
    /// The mathematical value of this quaternion.
    pub open spec fn s(self) -> Q4s {
        Q4s { x: self.x.v as int, y: self.y.v as int, z: self.z.v as int, w: self.w.v as int }
    }

    /// The vector part, as a mathematical value.
    pub open spec fn vec_s(self) -> V3s {
        V3s { x: self.x.v as int, y: self.y.v as int, z: self.z.v as int }
    }
}

/// Meaning of conjugation: the vector part negated.
pub open spec fn q_conjugate_s(q: Q4s) -> Q4s {
    Q4s { x: neg_s(q.x), y: neg_s(q.y), z: neg_s(q.z), w: q.w }
}

/// Meaning of rotating `v` by the unit quaternion `q`.
pub open spec fn q_rotate_s(q: Q4s, v: V3s) -> V3s {
    let qv = V3s { x: q.x, y: q.y, z: q.z };
    let t = v3_scale_s(v3_cross_s(qv, v), 2 * SCALE as int);
    v3_add_s(v3_add_s(v, v3_scale_s(t, q.w)), v3_cross_s(qv, t))
}

/// Conjugate quaternion, the inverse rotation for a unit quaternion.
pub fn q_conjugate(q: Quat) -> (r: Quat)
    ensures
        r.s() == q_conjugate_s(q.s()),
{
    Quat { x: fx_neg(q.x), y: fx_neg(q.y), z: fx_neg(q.z), w: q.w }
}

/// Rotate a vector by a unit quaternion.
pub fn q_rotate(q: Quat, v: Vec3) -> (r: Vec3)
    ensures
        r.s() == q_rotate_s(q.s(), v.s()),
{
    let qv = Vec3 { x: q.x, y: q.y, z: q.z };
    let t = v3_scale(v3_cross(qv, v), Fx { v: 2 * SCALE });
    v3_add(v3_add(v, v3_scale(t, q.w)), v3_cross(qv, t))
}

} // verus!
