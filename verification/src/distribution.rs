//! Importance-sampling distributions over directions: a cosine-weighted
//! hemisphere, a per-light-primitive solid-angle distribution, and a uniform
//! mixture combinator — the pieces of multiple importance sampling.
//!
//! Each distribution offers two operations: draw a direction (random; the
//! contracts state the algebraic form every outcome has) and evaluate the
//! density of a given direction (deterministic; the contracts pin the value
//! exactly over the fixed-point semantics).  The density of a mixture is
//! exactly the fixed-point arithmetic mean of its members' densities.

use crate::fx::{
    abs_s, add_s, div_s, fx_abs, fx_add, fx_div, fx_max, fx_mul, fx_sqrt, max_s, mul_s,
    sqrt_s, Fx, SCALE,
};
use crate::geometry::{intersect_shape, intersect_shape_s, Intersection, Ray, Shape};
use crate::quat::{q_conjugate, q_conjugate_s, q_rotate, q_rotate_s};
use crate::rng::{rand_fx_symmetric, rand_index, rand_sign, rng_next_u64};
use crate::scene::Primitive;
use crate::vec3::{
    v3_add, v3_add_s, v3_all_s, v3_cdiv, v3_cdiv_s, v3_cmul, v3_cmul_s, v3_dot, v3_dot_s,
    v3_norm, v3_norm_s, v3_normalize, v3_normalize_s, v3_scale, v3_scale_s, v3_sub, v3_sub_s,
    v3_zero, V3s, Vec3,
};
use vstd::prelude::*;

verus! {

/// The circle constant in fixed-point steps (`pi * SCALE`, rounded).
pub const PI_FX: i64 = 205887;

/// A direction drawn uniformly on the unit sphere, by bounded rejection
/// sampling inside the unit ball: every outcome is the normalization of some
/// vector of the ball (the zero vector serving in the vanishingly rare case
/// that every draw of the bounded budget was rejected; its normalization is
/// the zero direction, which contributes nothing downstream).
pub fn generate_unit_on_sphere(rng: &mut rand::rngs::StdRng) -> (r: Vec3)
    ensures
        exists|u: V3s| v3_norm_s(u) <= SCALE as int && r.s() == v3_normalize_s(u),
{
    let mut tries: usize = 0;
    while tries < 64
        decreases 64 - tries,
    {
        let v = Vec3 {
            x: rand_fx_symmetric(rng),
            y: rand_fx_symmetric(rng),
            z: rand_fx_symmetric(rng),
        };
        let nv = v3_norm(v);
        if nv.v <= SCALE {
            let res = v3_normalize(v);
            proof {
                assert(v3_norm_s(v.s()) <= SCALE as int && res.s() == v3_normalize_s(v.s()));
            }
            return res;
        }
        tries += 1;
    }
    let fv = v3_zero();
    let res = v3_normalize(fv);
    proof {
        assert(v3_dot_s(fv.s(), fv.s()) == 0);
        assert(v3_norm_s(fv.s()) == 0);
        assert(v3_norm_s(fv.s()) <= SCALE as int && res.s() == v3_normalize_s(fv.s()));
    }
    res
}

/// The cosine-weighted hemisphere distribution around the surface normal.
#[derive(Clone, Copy, Debug)]
pub struct CosineWeightedDistr {}

/// Meaning of the cosine-weighted density: `max(0, (normalize(w) . n) / pi)`.
pub open spec fn cosine_pdf_s(normal: Vec3, direction: Vec3) -> int {
    max_s(0, div_s(v3_dot_s(v3_normalize_s(direction.s()), normal.s()), PI_FX as int))
}

impl CosineWeightedDistr {
    /// Draw a direction distributed as `cos(theta)` over the hemisphere
    /// around `normal_from`: a uniform sphere point averaged with the normal
    /// and renormalized.  At the scalar's resolution a draw can graze just
    /// below the hemisphere (when the sphere point nearly cancels the
    /// normal), so no sign clause is promised here; the integrator tests
    /// `w . n` at the call site and discards such draws.
    pub fn sample(
        &self,
        rng: &mut rand::rngs::StdRng,
        _point_from: &Vec3,
        normal_from: &Vec3,
    ) -> (r: Vec3)
        ensures
            exists|u: V3s|
                v3_norm_s(u) <= SCALE as int && r.s() == v3_normalize_s(
                    v3_add_s(v3_normalize_s(u), normal_from.s()),
                ),
    {
        let g = generate_unit_on_sphere(rng);
        let res = v3_normalize(v3_add(g, *normal_from));
        proof {
            let u = choose|u: V3s|
                v3_norm_s(u) <= SCALE as int && g.s() == v3_normalize_s(u);
            assert(v3_norm_s(u) <= SCALE as int && res.s() == v3_normalize_s(
                v3_add_s(v3_normalize_s(u), normal_from.s()),
            ));
        }
        res
    }

    /// The cosine-weighted density of `direction`, exactly [`cosine_pdf_s`].
    pub fn pdf(&self, _point_from: &Vec3, normal_from: &Vec3, direction: &Vec3) -> (r: Fx)
        ensures
            r.v as int == cosine_pdf_s(*normal_from, *direction),
    {
        fx_max(Fx { v: 0 }, fx_div(v3_dot(v3_normalize(*direction), *normal_from), Fx { v: PI_FX }))
    }
}

/// The solid-angle distribution of directions toward one emissive primitive.
#[derive(Clone, Debug)]
pub struct LightSourceDistr {
    pub primitive: Primitive,
}

/// The area-weight sum of a box light's face selection: `4*sy*sz + 4*sx*sz
/// + 4*sx*sy` in fixed point.
pub open spec fn cuboid_weight_s(s: V3s) -> int {
    add_s(
        add_s(mul_s(mul_s(4 * SCALE as int, s.y), s.z), mul_s(mul_s(4 * SCALE as int, s.x), s.z)),
        mul_s(mul_s(4 * SCALE as int, s.x), s.y),
    )
}

/// A light primitive can be sampled: a box must offer a positive face-weight
/// sum (a degenerate box has no surface to pick a point on).
pub open spec fn light_sample_pre(prim: Primitive) -> bool {
    match prim.shape {
        Shape::Cuboid { s } => cuboid_weight_s(s.s()) > 0,
        _ => true,
    }
}

/// The shapes of local surface point a light sample can draw: the origin on
/// a plane; a scaled sphere point on an ellipsoid; a face point (dominant
/// coordinate snapped to a signed half-extent) on a box.
pub open spec fn local_light_sample_ok(shape: Shape, lp: V3s) -> bool {
    match shape {
        Shape::Plane { .. } => lp == v3_all_s(0),
        Shape::Ellipsoid { r } => exists|u: V3s|
            v3_norm_s(u) <= SCALE as int && lp == v3_cmul_s(v3_normalize_s(u), r.s()),
        Shape::Cuboid { s } => exists|sg: int, a: int, b: int|
            {
                &&& (sg == SCALE as int || sg == -(SCALE as int))
                &&& -(SCALE as int) <= a < SCALE as int
                &&& -(SCALE as int) <= b < SCALE as int
                &&& (lp == V3s { x: mul_s(s.s().x, sg), y: mul_s(s.s().y, a), z: mul_s(s.s().z, b) }
                    || lp == V3s {
                    x: mul_s(s.s().x, a),
                    y: mul_s(s.s().y, sg),
                    z: mul_s(s.s().z, b),
                } || lp == V3s {
                    x: mul_s(s.s().x, a),
                    y: mul_s(s.s().y, b),
                    z: mul_s(s.s().z, sg),
                })
            },
    }
}

/// The solid-angle density contributed by one root of the light's shape:
/// the local area density carried to solid angle by the Jacobian
/// `|origin - hit|^2 / |normal . omega|`.
pub open spec fn root_pdf_s(
    prim: Primitive,
    point_from: Vec3,
    direction: Vec3,
    t: int,
    normal: V3s,
) -> int {
    let ip = v3_add_s(point_from.s(), v3_scale_s(direction.s(), t));
    let local_point = q_rotate_s(
        q_conjugate_s(prim.rotation.s()),
        v3_sub_s(ip, prim.position.s()),
    );
    let local_pdf = match prim.shape {
        Shape::Plane { .. } => 0,
        Shape::Cuboid { s } => div_s(
            div_s(SCALE as int, 8 * SCALE as int),
            add_s(
                add_s(mul_s(s.s().x, s.s().y), mul_s(s.s().x, s.s().z)),
                mul_s(s.s().y, s.s().z),
            ),
        ),
        Shape::Ellipsoid { r } => {
            let n = v3_cdiv_s(local_point, r.s());
            let gx = mul_s(mul_s(n.x, r.s().y), r.s().z);
            let gy = mul_s(mul_s(r.s().x, n.y), r.s().z);
            let gz = mul_s(mul_s(r.s().x, r.s().y), n.z);
            div_s(
                div_s(div_s(SCALE as int, 4 * SCALE as int), PI_FX as int),
                sqrt_s(add_s(add_s(mul_s(gx, gx), mul_s(gy, gy)), mul_s(gz, gz))),
            )
        },
    };
    let vector_on_sample = v3_sub_s(ip, point_from.s());
    let omega = v3_normalize_s(vector_on_sample);
    mul_s(
        local_pdf,
        div_s(v3_dot_s(vector_on_sample, vector_on_sample), abs_s(v3_dot_s(normal, omega))),
    )
}

/// The sum of [`root_pdf_s`] over the first `k` roots.
pub open spec fn light_pdf_sum_s(
    prim: Primitive,
    point_from: Vec3,
    direction: Vec3,
    ts: Seq<int>,
    normals: Seq<V3s>,
    k: int,
) -> int
    decreases k,
{
    if k <= 0 {
        0
    } else {
        add_s(
            light_pdf_sum_s(prim, point_from, direction, ts, normals, k - 1),
            root_pdf_s(prim, point_from, direction, ts[k - 1], normals[k - 1]),
        )
    }
}

/// Meaning of the light-source density: intersect the candidate ray with the
/// light's shape and sum the per-root solid-angle densities (zero when the
/// ray misses the light).
///
/// The candidate ray is held against the shape in the light's local frame
/// without transforming the ray (only the per-root area density reads the
/// local point through the inverse rotation).  For a light that is displaced
/// or rotated in the world this is the density of the local-frame crossing,
/// not of the world-frame sample; the renderer has always evaluated it this
/// way, and this spec states that behavior rather than an idealization.
pub open spec fn light_pdf_s(prim: Primitive, point_from: Vec3, direction: Vec3) -> int {
    match intersect_shape_s(Ray { point: point_from, direction }, prim.shape) {
        None => 0,
        Some(i) => light_pdf_sum_s(prim, point_from, direction, i.ts, i.normals, i.ts.len() as int),
    }
}

fn root_pdf(prim: &Primitive, point_from: &Vec3, direction: &Vec3, t: Fx, normal: Vec3) -> (r: Fx)
    ensures
        r.v as int == root_pdf_s(*prim, *point_from, *direction, t.v as int, normal.s()),
{
    let ip = v3_add(*point_from, v3_scale(*direction, t));
    let local_point = q_rotate(q_conjugate(prim.rotation), v3_sub(ip, prim.position));
    let local_pdf = match prim.shape {
        Shape::Plane { .. } => Fx { v: 0 },
        Shape::Cuboid { s } => fx_div(
            fx_div(Fx { v: SCALE }, Fx { v: 8 * SCALE }),
            fx_add(fx_add(fx_mul(s.x, s.y), fx_mul(s.x, s.z)), fx_mul(s.y, s.z)),
        ),
        Shape::Ellipsoid { r } => {
            let n = v3_cdiv(local_point, r);
            let gx = fx_mul(fx_mul(n.x, r.y), r.z);
            let gy = fx_mul(fx_mul(r.x, n.y), r.z);
            let gz = fx_mul(fx_mul(r.x, r.y), n.z);
            fx_div(
                fx_div(fx_div(Fx { v: SCALE }, Fx { v: 4 * SCALE }), Fx { v: PI_FX }),
                fx_sqrt(fx_add(fx_add(fx_mul(gx, gx), fx_mul(gy, gy)), fx_mul(gz, gz))),
            )
        },
    };
    let vector_on_sample = v3_sub(ip, *point_from);
    let omega = v3_normalize(vector_on_sample);
    fx_mul(
        local_pdf,
        fx_div(v3_dot(vector_on_sample, vector_on_sample), fx_abs(v3_dot(normal, omega))),
    )
}

impl LightSourceDistr {
    /// Draw a direction toward a uniformly weighted random point on the
    /// light's surface: every outcome is the normalized offset from
    /// `point_from` to some admissible local surface point carried to world
    /// space.
    pub fn sample(
        &self,
        rng: &mut rand::rngs::StdRng,
        point_from: &Vec3,
        _normal_from: &Vec3,
    ) -> (r: Vec3)
        requires
            light_sample_pre(self.primitive),
        ensures
            exists|lp: V3s|
                local_light_sample_ok(self.primitive.shape, lp) && r.s() == v3_normalize_s(
                    v3_sub_s(
                        v3_add_s(
                            q_rotate_s(self.primitive.rotation.s(), lp),
                            self.primitive.position.s(),
                        ),
                        point_from.s(),
                    ),
                ),
    {
        let local: Vec3 = match &self.primitive.shape {
            Shape::Plane { .. } => v3_zero(),
            Shape::Cuboid { s } => {
                let w_x = fx_mul(fx_mul(Fx { v: 4 * SCALE }, s.y), s.z);
                let w_y = fx_mul(fx_mul(Fx { v: 4 * SCALE }, s.x), s.z);
                let w_z = fx_mul(fx_mul(Fx { v: 4 * SCALE }, s.x), s.y);
                let total = fx_add(fx_add(w_x, w_y), w_z);
                let u = rng_next_u64(rng);
                let rnd_face: i64 = (u % (total.v as u64)) as i64;
                let rnd_sign = rand_sign(rng);
                let rnd_val1 = rand_fx_symmetric(rng);
                let rnd_val2 = rand_fx_symmetric(rng);
                if rnd_face < w_x.v {
                    Vec3 { x: fx_mul(s.x, rnd_sign), y: fx_mul(s.y, rnd_val1), z: fx_mul(
                        s.z,
                        rnd_val2,
                    ) }
                } else if rnd_face < fx_add(w_x, w_y).v {
                    Vec3 { x: fx_mul(s.x, rnd_val1), y: fx_mul(s.y, rnd_sign), z: fx_mul(
                        s.z,
                        rnd_val2,
                    ) }
                } else {
                    Vec3 { x: fx_mul(s.x, rnd_val1), y: fx_mul(s.y, rnd_val2), z: fx_mul(
                        s.z,
                        rnd_sign,
                    ) }
                }
            },
            Shape::Ellipsoid { r } => {
                let g = generate_unit_on_sphere(rng);
                v3_cmul(g, *r)
            },
        };
        proof {
            assert(local_light_sample_ok(self.primitive.shape, local.s()));
        }
        v3_normalize(v3_sub(v3_add(q_rotate(self.primitive.rotation, local), self.primitive.position), *point_from))
    }

    /// The solid-angle density of `direction`, exactly [`light_pdf_s`]: the
    /// per-root densities summed over every point where the ray meets the
    /// light's shape.
    pub fn pdf(&self, point_from: &Vec3, _normal_from: &Vec3, direction: &Vec3) -> (r: Fx)
        ensures
            r.v as int == light_pdf_s(self.primitive, *point_from, *direction),
    {
        let ray = Ray { point: *point_from, direction: *direction };
        let hit: Option<Intersection> = intersect_shape(&ray, &self.primitive.shape);
        match hit {
            None => Fx { v: 0 },
            Some(i) => {
                let nroots = i.ts.len();
                let mut acc = Fx { v: 0 };
                let mut k: usize = 0;
                while k < nroots
                    invariant
                        k <= nroots,
                        nroots == i.ts@.len(),
                        i.normals@.len() == i.ts@.len(),
                        acc.v as int == light_pdf_sum_s(
                            self.primitive,
                            *point_from,
                            *direction,
                            i.s().ts,
                            i.s().normals,
                            k as int,
                        ),
                    decreases nroots - k,
                {
                    let rp = root_pdf(&self.primitive, point_from, direction, i.ts[k], i.normals[k]);
                    acc = fx_add(acc, rp);
                    k += 1;
                }
                acc
            },
        }
    }
}

/// A uniform mixture of distributions: sampling picks one member uniformly
/// at random, the density is the arithmetic mean of the members' densities.
pub struct MixDistr {
    pub distribs: Vec<Distr>,
}

/// One sampling strategy: the closed set of variants the renderer composes.
pub enum Distr {
    Cosine(CosineWeightedDistr),
    Light(LightSourceDistr),
    Mix(MixDistr),
}

/// A distribution is well formed when every mixture inside it is non-empty
/// (an empty mixture is a fatal configuration error), of bounded width, and
/// every light member offers a surface to sample.
pub open spec fn distr_wf(d: Distr) -> bool
    decreases d, 0int, 0int,
{
    match d {
        Distr::Cosine(_) => true,
        Distr::Light(l) => light_sample_pre(l.primitive),
        Distr::Mix(m) => mix_wf(m),
    }
}

/// Well-formedness of a mixture: non-empty, of bounded width, every member
/// well formed.
pub open spec fn mix_wf(m: MixDistr) -> bool
    decreases m, 1int, 0int,
{
    &&& 1 <= m.distribs@.len() <= 0x7fff_ffff
    &&& forall|i: int|
        0 <= i < m.distribs@.len() ==> distr_wf(#[trigger] m.distribs@[i])
}

/// Meaning of a member's density.
pub open spec fn distr_pdf_s(d: Distr, point_from: Vec3, normal: Vec3, direction: Vec3) -> int
    decreases d, 0int, 0int,
{
    match d {
        Distr::Cosine(_) => cosine_pdf_s(normal, direction),
        Distr::Light(l) => light_pdf_s(l.primitive, point_from, direction),
        Distr::Mix(m) => mix_pdf_s(m, point_from, normal, direction),
    }
}

/// The sum of the first `k` members' densities.
pub open spec fn mix_pdf_sum_s(
    ds: Seq<Distr>,
    point_from: Vec3,
    normal: Vec3,
    direction: Vec3,
    k: int,
) -> int
    decreases ds, 0int, k,
{
    if k <= 0 || k > ds.len() {
        0
    } else {
        add_s(
            mix_pdf_sum_s(ds, point_from, normal, direction, k - 1),
            distr_pdf_s(ds[k - 1], point_from, normal, direction),
        )
    }
}

/// Meaning of a mixture's density: the fixed-point arithmetic mean of its
/// members' densities.
pub open spec fn mix_pdf_s(m: MixDistr, point_from: Vec3, normal: Vec3, direction: Vec3) -> int
    decreases m, 1int, 0int,
{
    div_s(
        mix_pdf_sum_s(m.distribs@, point_from, normal, direction, m.distribs@.len() as int),
        m.distribs@.len() * SCALE as int,
    )
}

/// The form every draw from one strategy has: a cosine-weighted draw is the
/// renormalized sum of a unit-ball point's direction and the normal; a light
/// draw is the normalized offset from `point_from` to an admissible surface
/// point of the light; a mixture draw is a draw of one of its members, with
/// the caller's arguments passed through unchanged.
pub open spec fn distr_sample_ok(d: Distr, point_from: Vec3, normal: Vec3, r: Vec3) -> bool
    decreases d, 0int, 0int,
{
    match d {
        Distr::Cosine(_) => exists|u: V3s|
            v3_norm_s(u) <= SCALE as int && r.s() == v3_normalize_s(
                v3_add_s(v3_normalize_s(u), normal.s()),
            ),
        Distr::Light(l) => exists|lp: V3s|
            local_light_sample_ok(l.primitive.shape, lp) && r.s() == v3_normalize_s(
                v3_sub_s(
                    v3_add_s(q_rotate_s(l.primitive.rotation.s(), lp), l.primitive.position.s()),
                    point_from.s(),
                ),
            ),
        Distr::Mix(m) => mix_sample_ok(m, point_from, normal, r),
    }
}

/// The form every draw from a mixture has: a draw of one of its members.
pub open spec fn mix_sample_ok(m: MixDistr, point_from: Vec3, normal: Vec3, r: Vec3) -> bool
    decreases m, 1int, 0int,
{
    exists|k: int|
        0 <= k < m.distribs@.len() && distr_sample_ok(
            #[trigger] m.distribs@[k],
            point_from,
            normal,
            r,
        )
}

impl MixDistr {
    /// Draw a direction by delegating to a member picked uniformly at
    /// random: the result is some member's draw on the caller's arguments,
    /// and every outcome is a normalized vector.
    pub fn sample(
        &self,
        rng: &mut rand::rngs::StdRng,
        point_from: &Vec3,
        normal: &Vec3,
    ) -> (r: Vec3)
        requires
            mix_wf(*self),
        ensures
            mix_sample_ok(*self, *point_from, *normal, r),
            exists|v: V3s| r.s() == v3_normalize_s(v),
        decreases *self, 1int, 0int,
    {
        let k = rand_index(rng, self.distribs.len());
        let d = &self.distribs[k];
        proof {
            assert(distr_wf(self.distribs@[k as int]));
        }
        let r = d.sample(rng, point_from, normal);
        proof {
            assert(distr_sample_ok(self.distribs@[k as int], *point_from, *normal, r));
        }
        r
    }

    /// The mixture's density of `direction`: exactly the fixed-point
    /// arithmetic mean of the members' densities ([`mix_pdf_s`]).
    pub fn pdf(&self, point_from: &Vec3, normal: &Vec3, direction: &Vec3) -> (r: Fx)
        requires
            mix_wf(*self),
        ensures
            r.v as int == mix_pdf_s(*self, *point_from, *normal, *direction),
        decreases *self, 1int, 0int,
    {
        let len = self.distribs.len();
        let mut acc = Fx { v: 0 };
        let mut i: usize = 0;
        while i < len
            invariant
                i <= len,
                len == self.distribs@.len(),
                mix_wf(*self),
                acc.v as int == mix_pdf_sum_s(
                    self.distribs@,
                    *point_from,
                    *normal,
                    *direction,
                    i as int,
                ),
            decreases len - i,
        {
            let d = &self.distribs[i];
            proof {
                assert(distr_wf(self.distribs@[i as int]));
            }
            let p = d.pdf(point_from, normal, direction);
            acc = fx_add(acc, p);
            i += 1;
        }
        fx_div(acc, Fx { v: (len as i64) * SCALE })
    }
}

impl Distr {
    /// Draw a direction from this strategy: the result has the strategy's
    /// own outcome form ([`distr_sample_ok`]), and every outcome is a
    /// normalized vector.
    pub fn sample(
        &self,
        rng: &mut rand::rngs::StdRng,
        point_from: &Vec3,
        normal: &Vec3,
    ) -> (r: Vec3)
        requires
            distr_wf(*self),
        ensures
            distr_sample_ok(*self, *point_from, *normal, r),
            exists|v: V3s| r.s() == v3_normalize_s(v),
        decreases *self, 0int, 0int,
    {
        match self {
            Distr::Cosine(c) => {
                let r = c.sample(rng, point_from, normal);
                proof {
                    let u = choose|u: V3s|
                        v3_norm_s(u) <= SCALE as int && r.s() == v3_normalize_s(
                            v3_add_s(v3_normalize_s(u), normal.s()),
                        );
                    assert(r.s() == v3_normalize_s(v3_add_s(v3_normalize_s(u), normal.s())));
                    assert(distr_sample_ok(*self, *point_from, *normal, r));
                }
                r
            },
            Distr::Light(l) => {
                let r = l.sample(rng, point_from, normal);
                proof {
                    let lp = choose|lp: V3s|
                        local_light_sample_ok(l.primitive.shape, lp) && r.s() == v3_normalize_s(
                            v3_sub_s(
                                v3_add_s(
                                    q_rotate_s(l.primitive.rotation.s(), lp),
                                    l.primitive.position.s(),
                                ),
                                point_from.s(),
                            ),
                        );
                    assert(r.s() == v3_normalize_s(
                        v3_sub_s(
                            v3_add_s(
                                q_rotate_s(l.primitive.rotation.s(), lp),
                                l.primitive.position.s(),
                            ),
                            point_from.s(),
                        ),
                    ));
                    assert(distr_sample_ok(*self, *point_from, *normal, r));
                }
                r
            },
            Distr::Mix(m) => {
                let r = m.sample(rng, point_from, normal);
                proof {
                    assert(distr_sample_ok(*self, *point_from, *normal, r));
                }
                r
            },
        }
    }

    /// This strategy's density of `direction`, exactly [`distr_pdf_s`].
    pub fn pdf(&self, point_from: &Vec3, normal: &Vec3, direction: &Vec3) -> (r: Fx)
        requires
            distr_wf(*self),
        ensures
            r.v as int == distr_pdf_s(*self, *point_from, *normal, *direction),
        decreases *self, 0int, 0int,
    {
        match self {
            Distr::Cosine(c) => c.pdf(point_from, normal, direction),
            Distr::Light(l) => l.pdf(point_from, normal, direction),
            Distr::Mix(m) => m.pdf(point_from, normal, direction),
        }
    }
}

} // verus!
