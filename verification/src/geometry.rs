//! Ray/shape intersection in closed form.
//!
//! Shapes live in a canonical local frame centered at the origin; a
//! [`crate::scene::Primitive`] places one in the world by a translation and
//! a rotation.  [`intersect_shape`] returns every relevant root along the
//! ray (entry and exit where the origin is outside the solid, the exit alone
//! where it is inside), one outward unit normal per root, and whether the
//! ray origin lay outside the solid.  Every function's result is pinned by a
//! spec mirror over the fixed-point semantics, together with the structural
//! facts (root count, order and sign, the outside flag) that callers rely on.

use crate::fx::{
    abs_s, add_s, div_s, fx_abs, fx_add, fx_div, fx_max, fx_min, fx_mul, fx_neg, fx_sqrt, fx_sub,
    divt, iabs, is_isqrt, isqrt_s, lemma_div_s_unit, lemma_isqrt_unique, lemma_mul_s_neg, max_s,
    min_s, mul_s, neg_s, sqrt_s, sub_s, Fx, FX_MAX, SCALE,
};
use crate::quat::{q_conjugate, q_conjugate_s, q_rotate, q_rotate_s};
use crate::scene::{Primitive, Scene};
use crate::vec3::{
    v3_add, v3_add_s, v3_cdiv, v3_cdiv_s, v3_dot, v3_dot_s, v3_from_s, v3_neg, v3_neg_s,
    v3_norm, v3_norm_s, v3_normalize, v3_normalize_s, v3_scale, v3_scale_s, v3_sub, v3_sub_s,
    V3s, Vec3,
};
use vstd::prelude::*;

verus! {

use vstd::arithmetic::div_mod::lemma_div_multiples_vanish;

/// Offset, in fixed-point steps, by which a continuation ray's origin is
/// shifted along its direction to avoid immediate self-intersection
/// (about `1e-4` in real units).
pub const EPS: i64 = 7;

/// A ray direction counts as parallel to a plane when the magnitude of
/// their inner product is at most this many fixed-point steps.
pub const PLANE_EPS: i64 = 1;

/// A shape in its canonical local frame, centered at the origin.
#[derive(Clone, Copy, Debug)]
pub enum Shape {
    /// The plane through the origin with this normal.
    Plane { normal: Vec3 },
    /// The ellipsoid with these per-axis radii.
    Ellipsoid { r: Vec3 },
    /// The axis-aligned box with these half-extents.
    Cuboid { s: Vec3 },
}

/// A ray: origin and direction.  The direction need not be unit length; its
/// magnitude matters for distance-cap comparisons.
#[derive(Clone, Copy, Debug)]
pub struct Ray {
    pub point: Vec3,
    pub direction: Vec3,
}

/// The roots a ray makes with a shape: hit parameters in ascending order,
/// one outward unit normal per root, and whether the ray origin was outside
/// the shape's solid.
#[derive(Clone, Debug)]
pub struct Intersection {
    pub ts: Vec<Fx>,
    pub normals: Vec<Vec3>,
    pub outside: bool,
}

/// The mathematical value of an [`Intersection`].
pub struct IntxS {
    pub ts: Seq<int>,
    pub normals: Seq<V3s>,
    pub outside: bool,
}

impl Intersection {
    /// The mathematical value of this intersection record.
    pub open spec fn s(self) -> IntxS {
        IntxS {
            ts: self.ts@.map_values(|t: Fx| t.v as int),
            normals: self.normals@.map_values(|n: Vec3| n.s()),
            outside: self.outside,
        }
    }
}

/// A ray whose origin is shifted along its direction by [`EPS`] steps.
pub fn build_shifted_ray(point: Vec3, direction: Vec3) -> (r: Ray)
    ensures
        r.point.s() == v3_add_s(point.s(), v3_scale_s(direction.s(), EPS as int)),
        r.direction == direction,
{
    Ray { point: v3_add(point, v3_scale(direction, Fx { v: EPS })), direction }
}

/// Meaning of the quadratic solver on fixed-point coefficients: the
/// discriminant test, then both roots ordered ascending.
pub open spec fn quad_roots_s(a: int, b: int, c: int) -> Option<(int, int)> {
    let discr = sub_s(mul_s(b, b), mul_s(mul_s(4 * SCALE as int, a), c));
    if discr < 0 {
        None
    } else {
        let sq = sqrt_s(discr);
        let den = mul_s(2 * SCALE as int, a);
        let r1 = div_s(sub_s(neg_s(b), sq), den);
        let r2 = div_s(add_s(neg_s(b), sq), den);
        Some((min_s(r1, r2), max_s(r1, r2)))
    }
}

fn solve_quadratic_equation(a: Fx, b: Fx, c: Fx) -> (r: Option<(Fx, Fx)>)
    ensures
        match r {
            Some(p) => quad_roots_s(a.v as int, b.v as int, c.v as int) matches Some(q) && p.0.v
                as int == q.0 && p.1.v as int == q.1 && p.0.v <= p.1.v,
            None => quad_roots_s(a.v as int, b.v as int, c.v as int) is None,
        },
{
    let discr = fx_sub(fx_mul(b, b), fx_mul(fx_mul(Fx { v: 4 * SCALE }, a), c));
    if discr.v < 0 {
        None
    } else {
        let sq = fx_sqrt(discr);
        let den = fx_mul(Fx { v: 2 * SCALE }, a);
        let r1 = fx_div(fx_sub(fx_neg(b), sq), den);
        let r2 = fx_div(fx_add(fx_neg(b), sq), den);
        Some((fx_min(r1, r2), fx_max(r1, r2)))
    }
}

/// Meaning of `+1`/`-1` (in fixed point) by the sign of `x`, with zero
/// counting as positive.
pub open spec fn signum_s(x: int) -> int {
    if x < 0 {
        -(SCALE as int)
    } else {
        SCALE as int
    }
}

/// Meaning of snapping a vector to the dominant-axis unit vector: the axis
/// with the largest magnitude wins (`x` before `y` before `z` on ties), with
/// that component's sign.
pub open spec fn axis_unit_s(v: V3s) -> V3s {
    if abs_s(v.x) >= abs_s(v.y) && abs_s(v.x) >= abs_s(v.z) {
        V3s { x: signum_s(v.x), y: 0, z: 0 }
    } else if abs_s(v.y) >= abs_s(v.x) && abs_s(v.y) >= abs_s(v.z) {
        V3s { x: 0, y: signum_s(v.y), z: 0 }
    } else {
        V3s { x: 0, y: 0, z: signum_s(v.z) }
    }
}

fn signum_fx(x: Fx) -> (r: Fx)
    ensures
        r.v as int == signum_s(x.v as int),
{
    if x.v < 0 {
        Fx { v: -SCALE }
    } else {
        Fx { v: SCALE }
    }
}

fn axis_unit(v: Vec3) -> (r: Vec3)
    ensures
        r.s() == axis_unit_s(v.s()),
{
    let ax = fx_abs(v.x);
    let ay = fx_abs(v.y);
    let az = fx_abs(v.z);
    let zero = Fx { v: 0 };
    if ax.v >= ay.v && ax.v >= az.v {
        Vec3 { x: signum_fx(v.x), y: zero, z: zero }
    } else if ay.v >= ax.v && ay.v >= az.v {
        Vec3 { x: zero, y: signum_fx(v.y), z: zero }
    } else {
        Vec3 { x: zero, y: zero, z: signum_fx(v.z) }
    }
}

/// The point `ray.point + ray.direction * t`, as a mathematical value.
pub open spec fn ray_at_s(ray: Ray, t: int) -> V3s {
    v3_add_s(ray.point.s(), v3_scale_s(ray.direction.s(), t))
}

/// The outward unit normal of an ellipsoid with radii `r` at the ray point
/// for root `t`: the normalized gradient `p / r²`, flipped inward when the
/// ray started inside.
pub open spec fn ellipsoid_normal_s(ray: Ray, r: V3s, t: int, outside: bool) -> V3s {
    let p = ray_at_s(ray, t);
    let n = v3_normalize_s(v3_cdiv_s(v3_cdiv_s(p, r), r));
    if outside {
        n
    } else {
        v3_neg_s(n)
    }
}

/// The outward unit normal of a box with half-extents `s` at the ray point
/// for root `t`: the dominant axis of `p / s`, flipped inward when the ray
/// started inside.
pub open spec fn cuboid_normal_s(ray: Ray, s: V3s, t: int, outside: bool) -> V3s {
    let p = ray_at_s(ray, t);
    let n = axis_unit_s(v3_cdiv_s(p, s));
    if outside {
        n
    } else {
        v3_neg_s(n)
    }
}

/// Meaning of [`intersect_shape`]: the full result of intersecting a ray
/// with a shape in the shape's local frame.  (Opaque: reveal it where a
/// proof needs the formulas themselves.)
#[verifier::opaque]
pub open spec fn intersect_shape_s(ray: Ray, shape: Shape) -> Option<IntxS> {
    match shape {
        Shape::Plane { normal } => {
            let n = normal.s();
            let dv = v3_dot_s(ray.direction.s(), n);
            if abs_s(dv) <= PLANE_EPS as int {
                None
            } else {
                let t = div_s(neg_s(v3_dot_s(ray.point.s(), n)), dv);
                if t < 0 {
                    None
                } else {
                    let outside = dv < 0;
                    let nc = if outside {
                        n
                    } else {
                        v3_neg_s(n)
                    };
                    Some(
                        IntxS {
                            ts: seq![t],
                            normals: seq![v3_normalize_s(nc)],
                            outside,
                        },
                    )
                }
            }
        },
        Shape::Ellipsoid { r } => {
            let pr = v3_cdiv_s(ray.point.s(), r.s());
            let dr = v3_cdiv_s(ray.direction.s(), r.s());
            let qa = v3_dot_s(dr, dr);
            let qb = mul_s(2 * SCALE as int, v3_dot_s(pr, dr));
            let qc = sub_s(v3_dot_s(pr, pr), SCALE as int);
            match quad_roots_s(qa, qb, qc) {
                None => None,
                Some((t0, t1)) => if t0 >= 0 {
                    Some(
                        IntxS {
                            ts: seq![t0, t1],
                            normals: seq![
                                ellipsoid_normal_s(ray, r.s(), t0, true),
                                ellipsoid_normal_s(ray, r.s(), t1, true),
                            ],
                            outside: true,
                        },
                    )
                } else if t1 >= 0 {
                    Some(
                        IntxS {
                            ts: seq![t1],
                            normals: seq![ellipsoid_normal_s(ray, r.s(), t1, false)],
                            outside: false,
                        },
                    )
                } else {
                    None
                },
            }
        },
        Shape::Cuboid { s } => {
            let sv = s.s();
            let p = ray.point.s();
            let d = ray.direction.s();
            let tx0 = div_s(sub_s(sv.x, p.x), d.x);
            let tx1 = div_s(sub_s(neg_s(sv.x), p.x), d.x);
            let ty0 = div_s(sub_s(sv.y, p.y), d.y);
            let ty1 = div_s(sub_s(neg_s(sv.y), p.y), d.y);
            let tz0 = div_s(sub_s(sv.z, p.z), d.z);
            let tz1 = div_s(sub_s(neg_s(sv.z), p.z), d.z);
            let t0 = max_s(min_s(tx0, tx1), max_s(min_s(ty0, ty1), min_s(tz0, tz1)));
            let t1 = min_s(max_s(tx0, tx1), min_s(max_s(ty0, ty1), max_s(tz0, tz1)));
            if t0 > t1 || t1 < 0 {
                None
            } else if t0 >= 0 {
                Some(
                    IntxS {
                        ts: seq![t0, t1],
                        normals: seq![
                            cuboid_normal_s(ray, sv, t0, true),
                            cuboid_normal_s(ray, sv, t1, true),
                        ],
                        outside: true,
                    },
                )
            } else {
                Some(
                    IntxS {
                        ts: seq![t1],
                        normals: seq![cuboid_normal_s(ray, sv, t1, false)],
                        outside: false,
                    },
                )
            }
        },
    }
}

fn ellipsoid_normal(ray: &Ray, r: Vec3, t: Fx, outside: bool) -> (n: Vec3)
    ensures
        n.s() == ellipsoid_normal_s(*ray, r.s(), t.v as int, outside),
{
    let p = v3_add(ray.point, v3_scale(ray.direction, t));
    let n0 = v3_normalize(v3_cdiv(v3_cdiv(p, r), r));
    if outside {
        n0
    } else {
        v3_neg(n0)
    }
}

fn cuboid_normal(ray: &Ray, s: Vec3, t: Fx, outside: bool) -> (n: Vec3)
    ensures
        n.s() == cuboid_normal_s(*ray, s.s(), t.v as int, outside),
{
    let p = v3_add(ray.point, v3_scale(ray.direction, t));
    let n0 = axis_unit(v3_cdiv(p, s));
    if outside {
        n0
    } else {
        v3_neg(n0)
    }
}

/// Intersect a ray with a shape in the shape's local frame.
///
/// The result is exactly [`intersect_shape_s`]; in addition: every reported
/// root is non-negative, roots come in ascending order, there are one or two
/// of them (with one normal each), and for an ellipsoid or a box the
/// `outside` flag holds exactly when both entry and exit are reported.
#[verifier::rlimit(100)]
pub fn intersect_shape(ray: &Ray, shape: &Shape) -> (r: Option<Intersection>)
    ensures
        match r {
            Some(i) => intersect_shape_s(*ray, *shape) matches Some(m) && i.s() == m,
            None => intersect_shape_s(*ray, *shape) is None,
        },
        r matches Some(i) ==> {
            &&& 1 <= i.ts@.len() <= 2
            &&& i.normals@.len() == i.ts@.len()
            &&& forall|k: int| 0 <= k < i.ts@.len() ==> i.ts@[k].v >= 0
            &&& (i.ts@.len() == 2 ==> i.ts@[0].v <= i.ts@[1].v)
            &&& ((shape is Ellipsoid || shape is Cuboid) ==> i.outside == (i.ts@.len() == 2))
        },
{
    proof {
        reveal(intersect_shape_s);
    }
    match shape {
        Shape::Plane { normal } => {
            let dv = v3_dot(ray.direction, *normal);
            if fx_abs(dv).v <= PLANE_EPS {
                return None;
            }
            let t = fx_div(fx_neg(v3_dot(ray.point, *normal)), dv);
            if t.v < 0 {
                None
            } else {
                let outside = dv.v < 0;
                let nc = if outside {
                    *normal
                } else {
                    v3_neg(*normal)
                };
                let i = Intersection {
                    ts: vec![t],
                    normals: vec![v3_normalize(nc)],
                    outside,
                };
                proof {
                    let m = intersect_shape_s(*ray, *shape).unwrap();
                    assert(i.s().ts =~= m.ts);
                    assert(i.s().normals =~= m.normals);
                }
                Some(i)
            }
        },
        Shape::Ellipsoid { r } => {
            let pr = v3_cdiv(ray.point, *r);
            let dr = v3_cdiv(ray.direction, *r);
            let qa = v3_dot(dr, dr);
            let qb = fx_mul(Fx { v: 2 * SCALE }, v3_dot(pr, dr));
            let qc = fx_sub(v3_dot(pr, pr), Fx { v: SCALE });
            match solve_quadratic_equation(qa, qb, qc) {
                None => None,
                Some((t0, t1)) => {
                    if t0.v >= 0 {
                        let i = Intersection {
                            ts: vec![t0, t1],
                            normals: vec![
                                ellipsoid_normal(ray, *r, t0, true),
                                ellipsoid_normal(ray, *r, t1, true),
                            ],
                            outside: true,
                        };
                        proof {
                            let m = intersect_shape_s(*ray, *shape).unwrap();
                            assert(i.s().ts =~= m.ts);
                            assert(i.s().normals =~= m.normals);
                        }
                        Some(i)
                    } else if t1.v >= 0 {
                        let i = Intersection {
                            ts: vec![t1],
                            normals: vec![ellipsoid_normal(ray, *r, t1, false)],
                            outside: false,
                        };
                        proof {
                            let m = intersect_shape_s(*ray, *shape).unwrap();
                            assert(i.s().ts =~= m.ts);
                            assert(i.s().normals =~= m.normals);
                        }
                        Some(i)
                    } else {
                        None
                    }
                },
            }
        },
        Shape::Cuboid { s } => {
            let p = ray.point;
            let d = ray.direction;
            let tx0 = fx_div(fx_sub(s.x, p.x), d.x);
            let tx1 = fx_div(fx_sub(fx_neg(s.x), p.x), d.x);
            let ty0 = fx_div(fx_sub(s.y, p.y), d.y);
            let ty1 = fx_div(fx_sub(fx_neg(s.y), p.y), d.y);
            let tz0 = fx_div(fx_sub(s.z, p.z), d.z);
            let tz1 = fx_div(fx_sub(fx_neg(s.z), p.z), d.z);
            let t0 = fx_max(fx_min(tx0, tx1), fx_max(fx_min(ty0, ty1), fx_min(tz0, tz1)));
            let t1 = fx_min(fx_max(tx0, tx1), fx_min(fx_max(ty0, ty1), fx_max(tz0, tz1)));
            if t0.v > t1.v || t1.v < 0 {
                None
            } else if t0.v >= 0 {
                let i = Intersection {
                    ts: vec![t0, t1],
                    normals: vec![
                        cuboid_normal(ray, *s, t0, true),
                        cuboid_normal(ray, *s, t1, true),
                    ],
                    outside: true,
                };
                proof {
                    let m = intersect_shape_s(*ray, *shape).unwrap();
                    assert(i.s().ts =~= m.ts);
                    assert(i.s().normals =~= m.normals);
                }
                Some(i)
            } else {
                let i = Intersection {
                    ts: vec![t1],
                    normals: vec![cuboid_normal(ray, *s, t1, false)],
                    outside: false,
                };
                proof {
                    let m = intersect_shape_s(*ray, *shape).unwrap();
                    assert(i.s().ts =~= m.ts);
                    assert(i.s().normals =~= m.normals);
                }
                Some(i)
            }
        },
    }
}

/// A head-on plane hit, in general: for a plane whose normal `n` is exactly
/// unit under the fixed-point inner product (components within one unit),
/// a ray whose origin stands at inner product `d > 0` with `n` (the side
/// the normal points toward) and whose direction is the exact negation of
/// `n` hits the plane: the single root is exactly `d` (the perpendicular
/// distance over the unit `|n . direction|`), the reported normal is `n`
/// itself, already outward and unflipped, and the origin counts as outside.
pub proof fn lemma_plane_head_on_hit(ray: Ray, n: Vec3, d: int)
    requires
        v3_dot_s(n.s(), n.s()) == SCALE as int,
        iabs(n.s().x) <= SCALE as int,
        iabs(n.s().y) <= SCALE as int,
        iabs(n.s().z) <= SCALE as int,
        v3_dot_s(ray.point.s(), n.s()) == d,
        0 < d <= FX_MAX as int,
        ray.direction.s() == v3_neg_s(n.s()),
    ensures
        intersect_shape_s(ray, Shape::Plane { normal: n }) matches Some(i) && i.ts == seq![d]
            && i.normals == seq![n.s()] && i.outside,
{
    reveal(intersect_shape_s);
    let s = SCALE as int;
    let ns = n.s();
    let mx = mul_s(ns.x, ns.x);
    let my = mul_s(ns.y, ns.y);
    let mz = mul_s(ns.z, ns.z);
    lemma_mul_s_neg(ns.x, ns.x);
    lemma_mul_s_neg(ns.y, ns.y);
    lemma_mul_s_neg(ns.z, ns.z);
    assert(add_s(neg_s(mx), neg_s(my)) == neg_s(add_s(mx, my)));
    assert(add_s(neg_s(add_s(mx, my)), neg_s(mz)) == neg_s(add_s(add_s(mx, my), mz)));
    let dv = v3_dot_s(ray.direction.s(), ns);
    assert(dv == -s);
    assert(abs_s(dv) == s);
    // the root is exactly the distance
    assert((-d) * s == -(d * s) && d * s > 0) by (nonlinear_arith)
        requires
            d > 0,
            s > 0,
    ;
    lemma_div_multiples_vanish(d, s);
    assert(divt(-(d * s), -s) == d);
    let t = div_s(neg_s(v3_dot_s(ray.point.s(), ns)), dv);
    assert(t == d);
    // the unit normal renormalizes to itself
    assert(is_isqrt(s * s, s)) by (nonlinear_arith)
        requires
            s == 65536,
    ;
    assert(exists|r0: int| #[trigger] is_isqrt(s * s, r0));
    lemma_isqrt_unique(s * s, s, isqrt_s(s * s));
    assert(v3_norm_s(ns) == s);
    lemma_div_s_unit(ns.x);
    lemma_div_s_unit(ns.y);
    lemma_div_s_unit(ns.z);
    assert(v3_normalize_s(ns) == ns);
}

/// The ray carried into a primitive's local frame: the origin translated by
/// the primitive's position, then origin and direction both rotated by the
/// conjugate (inverse) of the primitive's rotation.
pub open spec fn local_ray_s(ray: Ray, prim: Primitive) -> Ray {
    let qc = q_conjugate_s(prim.rotation.s());
    Ray {
        point: v3_from_s(q_rotate_s(qc, v3_sub_s(ray.point.s(), prim.position.s()))),
        direction: v3_from_s(q_rotate_s(qc, ray.direction.s())),
    }
}

/// Meaning of [`intersect_primitive`]: the shape intersection in the
/// primitive's local frame (normals stay in the local frame here).
pub open spec fn prim_local_hit_s(ray: Ray, prim: Primitive) -> Option<IntxS> {
    intersect_shape_s(local_ray_s(ray, prim), prim.shape)
}

/// A primitive's hit as the scene query reports it: the local-frame
/// intersection with every normal rotated back into world space.
/// (Opaque: reveal it where a proof needs the transform itself.)
#[verifier::opaque]
pub open spec fn prim_hit_s(ray: Ray, prim: Primitive) -> Option<IntxS> {
    match prim_local_hit_s(ray, prim) {
        None => None,
        Some(i) => Some(
            IntxS {
                ts: i.ts,
                normals: i.normals.map_values(|n: V3s| q_rotate_s(prim.rotation.s(), n)),
                outside: i.outside,
            },
        ),
    }
}

fn local_ray(ray: &Ray, prim: &Primitive) -> (r: Ray)
    ensures
        r == local_ray_s(*ray, *prim),
{
    let qc = q_conjugate(prim.rotation);
    let p = q_rotate(qc, v3_sub(ray.point, prim.position));
    let d = q_rotate(qc, ray.direction);
    proof {
        assert(p == local_ray_s(*ray, *prim).point);
        assert(d == local_ray_s(*ray, *prim).direction);
    }
    Ray { point: p, direction: d }
}

/// Intersect a ray with a placed primitive, in the primitive's local frame
/// (normals are reported in the local frame, as [`prim_local_hit_s`] says).
pub fn intersect_primitive(ray: &Ray, primitive: &Primitive) -> (r: Option<Intersection>)
    ensures
        match r {
            Some(i) => prim_local_hit_s(*ray, *primitive) matches Some(m) && i.s() == m,
            None => prim_local_hit_s(*ray, *primitive) is None,
        },
{
    let ray_to_intersect = local_ray(ray, primitive);
    intersect_shape(&ray_to_intersect, &primitive.shape)
}

/// The nearest hit over a prefix of the primitive sequence: the hit with the
/// smallest first root among primitives `0 .. k`, the earliest such
/// primitive winning ties.
pub open spec fn best_hit_upto_s(ray: Ray, prims: Seq<Primitive>, k: int) -> Option<(IntxS, int)>
    decreases k,
{
    if k <= 0 {
        None
    } else {
        let prev = best_hit_upto_s(ray, prims, k - 1);
        match prim_hit_s(ray, prims[k - 1]) {
            None => prev,
            Some(h) => match prev {
                None => Some((h, k - 1)),
                Some(p) => if h.ts[0] < p.0.ts[0] {
                    Some((h, k - 1))
                } else {
                    prev
                },
            },
        }
    }
}

/// Meaning of [`intersect_scene`]: the nearest hit over all primitives,
/// rejected afterwards when a distance cap is given and the world-space
/// distance `t * |direction|` exceeds it.
pub open spec fn scene_hit_s(ray: Ray, scene: Scene, cap: Option<Fx>) -> Option<(IntxS, int)> {
    match best_hit_upto_s(ray, scene.primitives@, scene.primitives@.len() as int) {
        None => None,
        Some(p) => match cap {
            None => Some(p),
            Some(c) => if mul_s(p.0.ts[0], v3_norm_s(ray.direction.s())) > c.v as int {
                None
            } else {
                Some(p)
            },
        },
    }
}

/// What the nearest-hit fold guarantees: the chosen hit comes from a
/// primitive of the prefix and no primitive of the prefix hits strictly
/// closer; an empty result means no primitive of the prefix hits at all.
pub proof fn lemma_best_hit_props(ray: Ray, prims: Seq<Primitive>, k: int)
    requires
        0 <= k <= prims.len(),
    ensures
        match best_hit_upto_s(ray, prims, k) {
            None => forall|j: int| 0 <= j < k ==> #[trigger] prim_hit_s(ray, prims[j]) is None,
            Some(p) => {
                &&& 0 <= p.1 < k
                &&& prim_hit_s(ray, prims[p.1]) matches Some(h) && h == p.0
                &&& forall|j: int|
                    0 <= j < k ==> (#[trigger] prim_hit_s(ray, prims[j]) matches Some(g) ==> p.0.ts[0]
                        <= g.ts[0])
            },
        },
    decreases k,
{
    if k > 0 {
        lemma_best_hit_props(ray, prims, k - 1);
    }
}

/// The nearest hit of a ray in the scene, with the index of the primitive it
/// belongs to, or nothing when every primitive misses (or, with a distance
/// cap, when the nearest hit lies beyond the cap).  Normals come rotated
/// back into world space.
#[verifier::rlimit(100)]
pub fn intersect_scene(ray: &Ray, scene: &Scene, distance_cap: Option<Fx>) -> (r: Option<
    (Intersection, usize),
>)
    ensures
        match r {
            Some(p) => scene_hit_s(*ray, *scene, distance_cap) matches Some(m) && p.0.s() == m.0
                && p.1 as int == m.1,
            None => scene_hit_s(*ray, *scene, distance_cap) is None,
        },
        r matches Some(p) ==> {
            &&& p.1 < scene.primitives@.len()
            &&& prim_hit_s(*ray, scene.primitives@[p.1 as int]) matches Some(h) && p.0.s() == h
            &&& forall|j: int|
                0 <= j < scene.primitives@.len() ==> (#[trigger] prim_hit_s(
                    *ray,
                    scene.primitives@[j],
                ) matches Some(g) ==> p.0.s().ts[0] <= g.ts[0])
            &&& p.0.ts@.len() >= 1
            &&& p.0.normals@.len() == p.0.ts@.len()
        },
        (forall|j: int|
            0 <= j < scene.primitives@.len() ==> #[trigger] prim_hit_s(
                *ray,
                scene.primitives@[j],
            ) is None) ==> r is None,
{
    let n = scene.primitives.len();
    let mut best: Option<(Intersection, usize)> = None;
    let mut idx: usize = 0;
    while idx < n
        invariant
            idx <= n,
            n == scene.primitives@.len(),
            match best {
                None => best_hit_upto_s(*ray, scene.primitives@, idx as int) is None,
                Some(p) => {
                    &&& best_hit_upto_s(*ray, scene.primitives@, idx as int) matches Some(m)
                        && p.0.s() == m.0 && p.1 as int == m.1
                    &&& p.0.ts@.len() >= 1
                    &&& p.0.normals@.len() == p.0.ts@.len()
                },
            },
        decreases n - idx,
    {
        let prim = scene.primitives[idx];
        let lray = local_ray(ray, &prim);
        proof {
            reveal(prim_hit_s);
        }
        match intersect_shape(&lray, &prim.shape) {
            None => {},
            Some(i) => {
                let mut rotated: Vec<Vec3> = Vec::new();
                let mut j: usize = 0;
                while j < i.normals.len()
                    invariant
                        j <= i.normals@.len(),
                        rotated@.len() == j as int,
                        forall|k: int|
                            0 <= k < j as int ==> (#[trigger] rotated@[k]).s() == q_rotate_s(
                                prim.rotation.s(),
                                i.normals@[k].s(),
                            ),
                    decreases i.normals@.len() - j,
                {
                    let rn = q_rotate(prim.rotation, i.normals[j]);
                    rotated.push(rn);
                    j += 1;
                }
                let wi = Intersection { ts: i.ts, normals: rotated, outside: i.outside };
                proof {
                    let m = prim_hit_s(*ray, scene.primitives@[idx as int]).unwrap();
                    assert(wi.s().normals =~= m.normals);
                    assert(wi.s().ts =~= m.ts);
                }
                let replace = match &best {
                    None => true,
                    Some(p) => wi.ts[0].v < p.0.ts[0].v,
                };
                if replace {
                    best = Some((wi, idx));
                }
            },
        }
        idx += 1;
    }
    proof {
        lemma_best_hit_props(*ray, scene.primitives@, n as int);
    }
    match best {
        None => None,
        Some(p) => match distance_cap {
            None => Some(p),
            Some(c) => {
                let dn = v3_norm(ray.direction);
                if fx_mul(p.0.ts[0], dn).v > c.v {
                    None
                } else {
                    Some(p)
                }
            },
        },
    }
}

} // verus!
