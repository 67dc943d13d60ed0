//! 3-vectors over the fixed-point scalar, with the componentwise and inner
//! products the renderer needs.
//!
//! Every executable operation has a spec mirror (`v3_add_s`, `v3_dot_s`, ...)
//! stating its exact value over the scalar's integer semantics; the ghost
//! struct [`V3s`] carries the three integer components in contracts.

use crate::fx::{
    add_s, div_s, fx_add, fx_div, fx_mul, fx_neg, fx_sqrt, fx_sub, mul_s, neg_s, sqrt_s, sub_s, Fx,
};
use vstd::prelude::*;

verus! {

/// An executable 3-vector of fixed-point scalars.
#[derive(Clone, Copy, Debug, PartialEq, Eq, Structural)]
pub struct Vec3 {
    pub x: Fx,
    pub y: Fx,
    pub z: Fx,
}

/// The mathematical value of a [`Vec3`]: its three components as integers.
pub struct V3s {
    pub x: int,
    pub y: int,
    pub z: int,
}

impl Vec3 {
    /// The mathematical value of this vector.
    pub open spec fn s(self) -> V3s {
        V3s { x: self.x.v as int, y: self.y.v as int, z: self.z.v as int }
    }
}

/// The scalar holding a given integer value (exact whenever the value fits
/// in the machine word, as every clamped result does).
pub open spec fn fx_from_s(x: int) -> Fx {
    Fx { v: x as i64 }
}

/// The vector holding given integer components (exact whenever they fit in
/// the machine word, as every clamped result does).
pub open spec fn v3_from_s(v: V3s) -> Vec3 {
    Vec3 { x: fx_from_s(v.x), y: fx_from_s(v.y), z: fx_from_s(v.z) }
}

/// A vector's mathematical value determines it: rebuilding a vector from
/// its view gives the vector back.
pub proof fn lemma_v3_roundtrip(v: Vec3)
    ensures
        v3_from_s(v.s()) == v,
{
}

/// The vector whose components all hold the given integer.
pub open spec fn v3_all_s(k: int) -> V3s {
    V3s { x: k, y: k, z: k }
}

/// Meaning of vector addition.
pub open spec fn v3_add_s(a: V3s, b: V3s) -> V3s {
    V3s { x: add_s(a.x, b.x), y: add_s(a.y, b.y), z: add_s(a.z, b.z) }
}

/// Meaning of vector subtraction.
pub open spec fn v3_sub_s(a: V3s, b: V3s) -> V3s {
    V3s { x: sub_s(a.x, b.x), y: sub_s(a.y, b.y), z: sub_s(a.z, b.z) }
}

/// Meaning of vector negation.
pub open spec fn v3_neg_s(a: V3s) -> V3s {
    V3s { x: neg_s(a.x), y: neg_s(a.y), z: neg_s(a.z) }
}

/// Meaning of scaling a vector by a scalar.
pub open spec fn v3_scale_s(a: V3s, k: int) -> V3s {
    V3s { x: mul_s(a.x, k), y: mul_s(a.y, k), z: mul_s(a.z, k) }
}

/// Meaning of dividing a vector by a scalar.
pub open spec fn v3_sdiv_s(a: V3s, k: int) -> V3s {
    V3s { x: div_s(a.x, k), y: div_s(a.y, k), z: div_s(a.z, k) }
}

/// Meaning of the componentwise product.
pub open spec fn v3_cmul_s(a: V3s, b: V3s) -> V3s {
    V3s { x: mul_s(a.x, b.x), y: mul_s(a.y, b.y), z: mul_s(a.z, b.z) }
}

/// Meaning of the componentwise quotient.
pub open spec fn v3_cdiv_s(a: V3s, b: V3s) -> V3s {
    V3s { x: div_s(a.x, b.x), y: div_s(a.y, b.y), z: div_s(a.z, b.z) }
}

/// Meaning of the inner product.
pub open spec fn v3_dot_s(a: V3s, b: V3s) -> int {
    add_s(add_s(mul_s(a.x, b.x), mul_s(a.y, b.y)), mul_s(a.z, b.z))
}

/// Meaning of the cross product.
pub open spec fn v3_cross_s(a: V3s, b: V3s) -> V3s {
    V3s {
        x: sub_s(mul_s(a.y, b.z), mul_s(a.z, b.y)),
        y: sub_s(mul_s(a.z, b.x), mul_s(a.x, b.z)),
        z: sub_s(mul_s(a.x, b.y), mul_s(a.y, b.x)),
    }
}

/// Meaning of the euclidean norm.
pub open spec fn v3_norm_s(a: V3s) -> int {
    sqrt_s(v3_dot_s(a, a))
}

/// Meaning of normalization: each component divided by the norm.
pub open spec fn v3_normalize_s(a: V3s) -> V3s {
    let n = v3_norm_s(a);
    V3s { x: div_s(a.x, n), y: div_s(a.y, n), z: div_s(a.z, n) }
}

/// Vector addition.
pub fn v3_add(a: Vec3, b: Vec3) -> (r: Vec3)
    ensures
        r.s() == v3_add_s(a.s(), b.s()),
{
    Vec3 { x: fx_add(a.x, b.x), y: fx_add(a.y, b.y), z: fx_add(a.z, b.z) }
}

/// Vector subtraction.
pub fn v3_sub(a: Vec3, b: Vec3) -> (r: Vec3)
    ensures
        r.s() == v3_sub_s(a.s(), b.s()),
{
    Vec3 { x: fx_sub(a.x, b.x), y: fx_sub(a.y, b.y), z: fx_sub(a.z, b.z) }
}

/// Vector negation.
pub fn v3_neg(a: Vec3) -> (r: Vec3)
    ensures
        r.s() == v3_neg_s(a.s()),
{
    Vec3 { x: fx_neg(a.x), y: fx_neg(a.y), z: fx_neg(a.z) }
}

/// A vector scaled by a scalar.
pub fn v3_scale(a: Vec3, k: Fx) -> (r: Vec3)
    ensures
        r.s() == v3_scale_s(a.s(), k.v as int),
{
    Vec3 { x: fx_mul(a.x, k), y: fx_mul(a.y, k), z: fx_mul(a.z, k) }
}

/// A vector divided by a scalar.
pub fn v3_sdiv(a: Vec3, k: Fx) -> (r: Vec3)
    ensures
        r.s() == v3_sdiv_s(a.s(), k.v as int),
{
    Vec3 { x: fx_div(a.x, k), y: fx_div(a.y, k), z: fx_div(a.z, k) }
}

/// Componentwise product.
pub fn v3_cmul(a: Vec3, b: Vec3) -> (r: Vec3)
    ensures
        r.s() == v3_cmul_s(a.s(), b.s()),
{
    Vec3 { x: fx_mul(a.x, b.x), y: fx_mul(a.y, b.y), z: fx_mul(a.z, b.z) }
}

/// Componentwise quotient.
pub fn v3_cdiv(a: Vec3, b: Vec3) -> (r: Vec3)
    ensures
        r.s() == v3_cdiv_s(a.s(), b.s()),
{
    Vec3 { x: fx_div(a.x, b.x), y: fx_div(a.y, b.y), z: fx_div(a.z, b.z) }
}

/// Inner product.
pub fn v3_dot(a: Vec3, b: Vec3) -> (r: Fx)
    ensures
        r.v as int == v3_dot_s(a.s(), b.s()),
{
    fx_add(fx_add(fx_mul(a.x, b.x), fx_mul(a.y, b.y)), fx_mul(a.z, b.z))
}

/// Cross product.
pub fn v3_cross(a: Vec3, b: Vec3) -> (r: Vec3)
    ensures
        r.s() == v3_cross_s(a.s(), b.s()),
{
    Vec3 {
        x: fx_sub(fx_mul(a.y, b.z), fx_mul(a.z, b.y)),
        y: fx_sub(fx_mul(a.z, b.x), fx_mul(a.x, b.z)),
        z: fx_sub(fx_mul(a.x, b.y), fx_mul(a.y, b.x)),
    }
}

/// Euclidean norm.
pub fn v3_norm(a: Vec3) -> (r: Fx)
    ensures
        r.v as int == v3_norm_s(a.s()),
{
    fx_sqrt(v3_dot(a, a))
}

/// The vector rescaled to (fixed-point) unit length; the zero vector stays
/// zero under the division's total semantics.
pub fn v3_normalize(a: Vec3) -> (r: Vec3)
    ensures
        r.s() == v3_normalize_s(a.s()),
{
    let n = v3_norm(a);
    Vec3 { x: fx_div(a.x, n), y: fx_div(a.y, n), z: fx_div(a.z, n) }
}

/// The vector with all components zero.
pub fn v3_zero() -> (r: Vec3)
    ensures
        r.s() == v3_all_s(0),
{
    Vec3 { x: Fx { v: 0 }, y: Fx { v: 0 }, z: Fx { v: 0 } }
}

} // verus!
