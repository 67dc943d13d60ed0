//! The recursive path-tracing integrator and the image pipeline: per-ray
//! radiance estimation over the three material models, tone mapping through
//! the ACES filmic curve, and gamma encoding to 8-bit channels.
//!
//! The deterministic parts carry exact contracts: the tone-mapping curve and
//! the gamma level are pinned value-by-value, and the integrator's
//! radiance is pinned wherever it does not depend on a random draw (a missed
//! scene gives the background color, an exhausted depth budget gives black).

use crate::distribution::{
    distr_wf, light_sample_pre, mix_pdf_s, mix_wf, CosineWeightedDistr, Distr, LightSourceDistr,
    MixDistr, PI_FX,
};
use crate::fx::{
    add_s, div_s, divt, fx_add, fx_div, fx_max, fx_min, fx_mul, fx_neg, fx_of_u32, fx_sqrt,
    fx_sub, iabs, max_s, min_s, mul_s, neg_s, sqrt_s, sub_s, Fx, FX_MAX, SCALE,
};
use crate::geometry::{
    build_shifted_ray, intersect_scene, prim_hit_s, scene_hit_s, Ray, Shape, EPS,
};
use crate::rng::{rand_fx_unit, rng_from_seed};
use crate::scene::{Material, Primitive, Scene};
use crate::vec3::{
    lemma_v3_roundtrip, v3_add, v3_add_s, v3_all_s, v3_cmul, v3_cmul_s, v3_dot, v3_dot_s,
    v3_from_s, v3_normalize, v3_normalize_s, v3_scale, v3_scale_s, v3_sdiv, v3_sdiv_s, v3_sub,
    v3_sub_s, v3_zero, V3s, Vec3,
};
use vstd::prelude::*;

verus! {

use vstd::arithmetic::div_mod::lemma_div_multiples_vanish;

/// ACES curve coefficient `2.51`, in fixed point.
pub const ACES_A: i64 = 164495;

/// ACES curve coefficient `0.03`, in fixed point.
pub const ACES_B: i64 = 1966;

/// ACES curve coefficient `2.43`, in fixed point.
pub const ACES_C: i64 = 159252;

/// ACES curve coefficient `0.59`, in fixed point.
pub const ACES_D: i64 = 38666;

/// ACES curve coefficient `0.14`, in fixed point.
pub const ACES_E: i64 = 9175;

/// Upper clamp of the tone-mapped value: `1.1` in fixed point.
pub const TONE_CAP: i64 = 72090;

/// `255^11`: the gamma exponent `1/2.2` is `5/11`, so the gamma level is
/// characterized by comparing eleventh powers of the level against fifth
/// powers of the tone-mapped value.
pub const P255_11: u128 = 296443535898840969287109375;

/// Meaning of the ACES filmic tone-mapping curve
/// `clamp(x(ax+b) / (x(cx+d)+e), 0, 1.1)` over the fixed-point operations.
pub open spec fn aces_s(x: int) -> int {
    let num = mul_s(x, add_s(mul_s(ACES_A as int, x), ACES_B as int));
    let den = add_s(mul_s(x, add_s(mul_s(ACES_C as int, x), ACES_D as int)), ACES_E as int);
    min_s(max_s(div_s(num, den), 0), TONE_CAP as int)
}

/// ACES filmic tone mapping of one radiance channel.
pub fn aces_tonemap(x: Fx) -> (r: Fx)
    ensures
        r.v as int == aces_s(x.v as int),
        0 <= r.v <= TONE_CAP,
{
    let num = fx_mul(x, fx_add(fx_mul(Fx { v: ACES_A }, x), Fx { v: ACES_B }));
    let den = fx_add(fx_mul(x, fx_add(fx_mul(Fx { v: ACES_C }, x), Fx { v: ACES_D })), Fx {
        v: ACES_E,
    });
    fx_min(fx_max(fx_div(num, den), Fx { v: 0 }), Fx { v: TONE_CAP })
}

/// The fifth power.
pub open spec fn pow5_s(v: int) -> int {
    v * v * v * v * v
}

/// The eleventh power.
pub open spec fn pow11_s(g: int) -> int {
    g * g * g * g * g * g * g * g * g * g * g
}

/// Level `g` does not overshoot the gamma value of the (rounded,
/// 8-bit-scaled) tone-mapped channel `v8`: `g - 1/2 <= 255 * (v8/256)^(5/11)`,
/// cleared of divisions — `(2g-1)^11 * 2^29 <= v8^5 * 255^11` — so the
/// greatest such level is the gamma value rounded half-up to an integer.
pub open spec fn gamma_ok_s(g: int, v8: int) -> bool {
    g <= 0 || pow11_s(2 * g - 1) * 0x2000_0000 <= pow5_s(v8) * (P255_11 as int)
}

/// `g` is the gamma level of `v8`: the greatest value in `0 ..= 255` that
/// does not overshoot, which is `255 * (v8/256)^(5/11)` rounded half-up
/// (saturated at `255`).
pub open spec fn is_gamma_level(v8: int, g: int) -> bool {
    &&& 0 <= g <= 255
    &&& gamma_ok_s(g, v8)
    &&& (g == 255 || !gamma_ok_s(g + 1, v8))
}

/// The gamma level of `v8` (unique by [`lemma_gamma_level_unique`]).
pub open spec fn gamma_level_s(v8: int) -> int {
    choose|g: int| is_gamma_level(v8, g)
}

/// Meaning of gamma encoding a tone-mapped channel `x` (in `[0, TONE_CAP]`)
/// to an 8-bit value: round `x` to steps of `1/256`, saturate everything at
/// or above `1` to `255`, otherwise round the gamma-corrected, 255-scaled
/// value to its level.
pub open spec fn encode_s(x: int) -> int {
    let v8 = (x + 128) / 256;
    if v8 >= 256 {
        255
    } else {
        gamma_level_s(v8)
    }
}

/// The whole per-channel pipeline: ACES tone mapping, then gamma encoding.
pub open spec fn channel_s(x: int) -> int {
    encode_s(aces_s(x))
}

proof fn lemma_mul_le(a1: int, b1: int, a2: int, b2: int)
    requires
        0 <= a1 <= a2,
        0 <= b1 <= b2,
    ensures
        a1 * b1 <= a2 * b2,
{
    assert(a1 * b1 <= a2 * b2) by (nonlinear_arith)
        requires
            0 <= a1 <= a2,
            0 <= b1 <= b2,
    ;
}

proof fn lemma_pow11_mono(g1: int, g2: int)
    requires
        0 <= g1 <= g2,
    ensures
        pow11_s(g1) <= pow11_s(g2),
        pow11_s(g1) >= 0,
{
    let a2 = g1 * g1;
    let b2 = g2 * g2;
    lemma_mul_le(g1, g1, g2, g2);
    lemma_mul_le(a2, g1, b2, g2);
    lemma_mul_le(a2 * g1, g1, b2 * g2, g2);
    lemma_mul_le(a2 * g1 * g1, g1, b2 * g2 * g2, g2);
    lemma_mul_le(a2 * g1 * g1 * g1, g1, b2 * g2 * g2 * g2, g2);
    lemma_mul_le(a2 * g1 * g1 * g1 * g1, g1, b2 * g2 * g2 * g2 * g2, g2);
    lemma_mul_le(a2 * g1 * g1 * g1 * g1 * g1, g1, b2 * g2 * g2 * g2 * g2 * g2, g2);
    lemma_mul_le(a2 * g1 * g1 * g1 * g1 * g1 * g1, g1, b2 * g2 * g2 * g2 * g2 * g2 * g2, g2);
    lemma_mul_le(
        a2 * g1 * g1 * g1 * g1 * g1 * g1 * g1,
        g1,
        b2 * g2 * g2 * g2 * g2 * g2 * g2 * g2,
        g2,
    );
    lemma_mul_le(
        a2 * g1 * g1 * g1 * g1 * g1 * g1 * g1 * g1,
        g1,
        b2 * g2 * g2 * g2 * g2 * g2 * g2 * g2 * g2,
        g2,
    );
}

/// Monotonicity of [`gamma_ok_s`] in the level: a smaller level never
/// overshoots where a larger one does not.
pub proof fn lemma_gamma_ok_mono(g1: int, g2: int, v8: int)
    requires
        0 <= g1 <= g2,
        gamma_ok_s(g2, v8),
    ensures
        gamma_ok_s(g1, v8),
{
    if g1 > 0 {
        lemma_pow11_mono(2 * g1 - 1, 2 * g2 - 1);
        assert(pow11_s(2 * g1 - 1) * 0x2000_0000 <= pow11_s(2 * g2 - 1) * 0x2000_0000);
    }
}

/// The gamma level of a value is unique.
pub proof fn lemma_gamma_level_unique(v8: int, g1: int, g2: int)
    requires
        is_gamma_level(v8, g1),
        is_gamma_level(v8, g2),
    ensures
        g1 == g2,
{
    if g1 < g2 {
        lemma_gamma_ok_mono(g1 + 1, g2, v8);
    }
    if g2 < g1 {
        lemma_gamma_ok_mono(g2 + 1, g1, v8);
    }
}

fn gamma_ok(g: u64, v8: u64) -> (r: bool)
    requires
        1 <= g <= 255,
        v8 <= 255,
    ensures
        r == gamma_ok_s(g as int, v8 as int),
{
    let m: u64 = 2 * g - 1;
    proof {
        assert(m * m <= 259081 && (m * m) * (m * m) <= 67122964561 && (m * m) * m <= 131872229)
            by (nonlinear_arith)
            requires
                m <= 509,
        ;
    }
    let m2: u64 = m * m;
    let m4: u64 = m2 * m2;
    let m3: u64 = m2 * m;
    proof {
        assert((m4 as int) * (m4 as int) <= 4505492371457261922721) by (nonlinear_arith)
            requires
                0 <= m4 <= 67122964561,
        ;
        assert((m4 as int) * (m4 as int) * (m3 as int) <= 594149321766565107986044015109)
            by (nonlinear_arith)
            requires
                0 <= m3 <= 131872229,
                0 <= m4 as int * m4 as int <= 4505492371457261922721,
        ;
    }
    let m8: u128 = (m4 as u128) * (m4 as u128);
    let m11: u128 = m8 * (m3 as u128);
    let lhs: u128 = m11 * 0x2000_0000;
    proof {
        assert(v8 * v8 <= 65025 && (v8 * v8) * (v8 * v8) <= 4228250625 && ((v8 * v8) * (v8 * v8))
            * v8 <= 1078203909375) by (nonlinear_arith)
            requires
                v8 <= 255,
        ;
    }
    let v2: u64 = v8 * v8;
    let v4: u64 = v2 * v2;
    let v5: u64 = v4 * v8;
    proof {
        assert((v5 as int) * (P255_11 as int) <= 319626579315078487616775634918212890625)
            by (nonlinear_arith)
            requires
                0 <= v5 <= 1078203909375,
        ;
    }
    let rhs: u128 = (v5 as u128) * P255_11;
    proof {
        assert(m11 as int == pow11_s(m as int)) by (nonlinear_arith)
            requires
                m2 == m * m,
                m4 == m2 * m2,
                m3 == m2 * m,
                m8 == m4 as int * m4 as int,
                m11 == m8 as int * m3 as int,
        ;
        assert(v5 as int == pow5_s(v8 as int)) by (nonlinear_arith)
            requires
                v2 == v8 * v8,
                v4 == v2 * v2,
                v5 == v4 * v8,
        ;
        assert(m as int == 2 * (g as int) - 1);
    }
    lhs <= rhs
}

/// Gamma-encode a tone-mapped channel to its 8-bit value, exactly
/// [`encode_s`].
pub fn encode_channel(x: Fx) -> (r: u8)
    requires
        0 <= x.v <= TONE_CAP,
    ensures
        r as int == encode_s(x.v as int),
{
    let v8: u64 = ((x.v as u64) + 128) / 256;
    if v8 >= 256 {
        255
    } else {
        let mut g: u64 = 0;
        loop
            invariant_except_break
                g <= 255,
                v8 <= 255,
                gamma_ok_s(g as int, v8 as int),
            ensures
                is_gamma_level(v8 as int, g as int),
            decreases 255 - g,
        {
            if g == 255 {
                break ;
            }
            if gamma_ok(g + 1, v8) {
                g += 1;
            } else {
                break ;
            }
        }
        proof {
            lemma_gamma_level_unique(v8 as int, g as int, gamma_level_s(v8 as int));
        }
        g as u8
    }
}

/// Tone-map and gamma-encode an averaged radiance into one display pixel:
/// each channel passes through [`channel_s`].
pub fn proportion_to_value(color: Vec3) -> (r: [u8; 3])
    ensures
        r@.len() == 3,
        r@[0] as int == channel_s(color.s().x),
        r@[1] as int == channel_s(color.s().y),
        r@[2] as int == channel_s(color.s().z),
{
    let c0 = encode_channel(aces_tonemap(color.x));
    let c1 = encode_channel(aces_tonemap(color.y));
    let c2 = encode_channel(aces_tonemap(color.z));
    let arr: [u8; 3] = [c0, c1, c2];
    proof {
        assert(arr@[0] == c0 && arr@[1] == c1 && arr@[2] == c2);
    }
    arr
}

/// The non-planar primitives among the first `k`, in order: the ones the
/// renderer samples as light sources.
pub open spec fn lights_upto_s(prims: Seq<Primitive>, k: int) -> Seq<Primitive>
    decreases k,
{
    if k <= 0 || k > prims.len() {
        Seq::empty()
    } else {
        let prev = lights_upto_s(prims, k - 1);
        if prims[k - 1].shape is Plane {
            prev
        } else {
            prev.push(prims[k - 1])
        }
    }
}

/// `ds` is exactly one light-source distribution per primitive of `prims`,
/// in order.
pub open spec fn is_light_seq(prims: Seq<Primitive>, ds: Seq<Distr>) -> bool {
    &&& ds.len() == prims.len()
    &&& forall|k: int|
        0 <= k < ds.len() ==> ((#[trigger] ds[k]) matches Distr::Light(l) && l.primitive
            == prims[k])
}

/// A scene the renderer accepts: a bounded number of primitives, every one
/// of them offering a surface to sample (a box light must not be degenerate).
pub open spec fn scene_wf(scene: Scene) -> bool {
    &&& scene.primitives@.len() <= 0x7fff_ffff
    &&& forall|i: int|
        0 <= i < scene.primitives@.len() ==> light_sample_pre(#[trigger] scene.primitives@[i])
}

/// The shape of the global sampling mixture: the cosine-weighted
/// distribution, joined by the mixture of one light-source distribution per
/// non-planar primitive whenever the scene has any (with none, the cosine
/// member stands alone, so that a scene without light primitives still
/// renders instead of failing on an empty mixture).
pub open spec fn global_distr_ok(scene: Scene, d: MixDistr) -> bool {
    let lights = lights_upto_s(scene.primitives@, scene.primitives@.len() as int);
    &&& d.distribs@.len() >= 1
    &&& d.distribs@[0] is Cosine
    &&& if lights.len() == 0 {
        d.distribs@.len() == 1
    } else {
        &&& d.distribs@.len() == 2
        &&& (d.distribs@[1] matches Distr::Mix(m2) && is_light_seq(lights, m2.distribs@))
    }
}

/// Build the global importance-sampling mixture of a scene: cosine-weighted
/// hemisphere sampling, combined with per-primitive light sampling over the
/// non-planar primitives.
pub fn build_global_distr(scene: &Scene) -> (d: MixDistr)
    requires
        scene_wf(*scene),
    ensures
        mix_wf(d),
        global_distr_ok(*scene, d),
{
    let n = scene.primitives.len();
    let mut lights: Vec<Distr> = Vec::new();
    let mut i: usize = 0;
    while i < n
        invariant
            i <= n,
            n == scene.primitives@.len(),
            scene_wf(*scene),
            is_light_seq(lights_upto_s(scene.primitives@, i as int), lights@),
            lights@.len() <= i,
            forall|k: int| 0 <= k < lights@.len() ==> distr_wf(#[trigger] lights@[k]),
        decreases n - i,
    {
        let p = scene.primitives[i];
        match p.shape {
            Shape::Plane { .. } => {},
            _ => {
                lights.push(Distr::Light(LightSourceDistr { primitive: p }));
            },
        }
        i += 1;
    }
    let have_lights = lights.len() > 0;
    let mut members: Vec<Distr> = Vec::new();
    members.push(Distr::Cosine(CosineWeightedDistr {  }));
    if have_lights {
        members.push(Distr::Mix(MixDistr { distribs: lights }));
    }
    let d = MixDistr { distribs: members };
    proof {
        assert(forall|k: int| 0 <= k < d.distribs@.len() ==> distr_wf(#[trigger] d.distribs@[k]));
    }
    d
}

/// The cases in which every sample of every pixel has the same, fully
/// deterministic radiance: a zero depth budget (black), or a scene without
/// primitives (the background).
pub open spec fn const_radiance_case(scene: Scene) -> bool {
    scene.ray_depth == 0 || scene.primitives@.len() == 0
}

/// That deterministic radiance.
pub open spec fn const_radiance_s(scene: Scene) -> V3s {
    if scene.ray_depth == 0 {
        v3_all_s(0)
    } else {
        scene.background_color.s()
    }
}

/// Averaging `samples` copies of the constant radiance is exact when the
/// accumulated sum stays within the scalar's range.
pub open spec fn mean_exact_bound(scene: Scene) -> bool {
    let c = const_radiance_s(scene);
    &&& scene.samples as int * iabs(c.x) <= FX_MAX as int
    &&& scene.samples as int * iabs(c.y) <= FX_MAX as int
    &&& scene.samples as int * iabs(c.z) <= FX_MAX as int
}

/// The byte a constant-radiance image holds at offset `i`: the encoded
/// channel that `i` falls on.
pub open spec fn const_channel_at(scene: Scene, i: int) -> int {
    let c = const_radiance_s(scene);
    if i % 3 == 0 {
        channel_s(c.x)
    } else if i % 3 == 1 {
        channel_s(c.y)
    } else {
        channel_s(c.z)
    }
}

/// The first `upto` bytes are those of the constant-radiance image.
pub open spec fn const_image_s(scene: Scene, bytes: Seq<u8>, upto: int) -> bool {
    forall|i: int| 0 <= i < upto ==> (#[trigger] bytes[i]) as int == const_channel_at(scene, i)
}

proof fn lemma_scaled_bound(k: int, n: int, c: int)
    requires
        0 <= k <= n,
        n * iabs(c) <= FX_MAX as int,
    ensures
        iabs(k * c) <= FX_MAX as int,
        k * c + c == (k + 1) * c,
{
    assert(iabs(k * c) == k * iabs(c) && k * iabs(c) <= n * iabs(c) && k * c + c == (k + 1) * c)
        by (nonlinear_arith)
        requires
            0 <= k <= n,
    ;
}

proof fn lemma_div_exact(c: int, n: int)
    requires
        1 <= n <= 0x1_0000_0000,
        iabs(c) <= FX_MAX as int,
    ensures
        div_s(n * c, n * SCALE as int) == c,
{
    let m = n * SCALE as int;
    assert(m >= 65536 && (n * c) * (SCALE as int) == c * m) by (nonlinear_arith)
        requires
            1 <= n,
            SCALE == 65536,
            m == n * SCALE as int,
    ;
    if c >= 0 {
        assert(c * m == m * c && c * m >= 0) by (nonlinear_arith)
            requires
                c >= 0,
                m > 0,
        ;
        lemma_div_multiples_vanish(c, m);
        assert(divt(c * m, m) == c);
    } else {
        assert(c * m < 0 && (-(c * m)) == m * (-c)) by (nonlinear_arith)
            requires
                c < 0,
                m > 0,
        ;
        lemma_div_multiples_vanish(-c, m);
        assert(divt(c * m, m) == -((m * (-c)) / m));
        assert(divt(c * m, m) == c);
    }
}

/// The continuation ray of a bounce: origin shifted by [`EPS`] steps along
/// the direction, as [`build_shifted_ray`] builds it.
pub open spec fn shifted_ray_s(point: V3s, direction: V3s) -> Ray {
    Ray {
        point: v3_from_s(v3_add_s(point, v3_scale_s(direction, EPS as int))),
        direction: v3_from_s(direction),
    }
}

/// What the radiance estimator may return for a ray at a given depth, over
/// every value of the random draws it consumes: black once the depth budget
/// is spent; the exact background color where the scene is missed; and on a
/// hit, the hit material's branch formula — for a diffuse surface, the
/// emission alone when the drawn direction has non-positive mixture density
/// or lies below the surface, else the emission plus the recursive radiance
/// weighted by `(color/pi) * (w.n) / density` with the density exactly
/// [`mix_pdf_s`]; for a metal, the recursive radiance of the mirrored ray
/// tinted by the color, with no emission; for a dielectric, either the
/// Snell-refracted recursive radiance (possible only without total internal
/// reflection, and only when some branch draw exceeds the Schlick
/// coefficient; tinted by the color exactly when the hit was entered from
/// outside) or the reflected recursive radiance (possible under total
/// internal reflection or when some draw does not exceed the coefficient),
/// with no probability weighting of either branch.  Every recursive
/// radiance is bound by this relation one level deeper along the shifted
/// continuation ray.
pub open spec fn radiance_ok(scene: Scene, distr: MixDistr, ray: Ray, depth: u32, r: V3s) -> bool
    decreases scene.ray_depth - depth,
{
    if depth >= scene.ray_depth {
        r == v3_all_s(0)
    } else {
        match scene_hit_s(ray, scene, None) {
            None => r == scene.background_color.s(),
            Some(hit) => {
                let i = hit.0;
                let prim = scene.primitives@[hit.1];
                let hp = v3_add_s(ray.point.s(), v3_scale_s(ray.direction.s(), i.ts[0]));
                let n0 = i.normals[0];
                match prim.material {
                    Material::DIFFUSE => exists|w: Vec3|
                        #![trigger mix_pdf_s(distr, v3_from_s(hp), v3_from_s(n0), w)]
                        {
                            let p = mix_pdf_s(distr, v3_from_s(hp), v3_from_s(n0), w);
                            let wn = v3_dot_s(w.s(), n0);
                            if p <= 0 || wn <= 0 {
                                r == prim.emission.s()
                            } else {
                                exists|li: V3s|
                                    #![trigger v3_cmul_s(v3_sdiv_s(prim.color.s(), PI_FX as int), li)]
                                    {
                                        &&& radiance_ok(
                                            scene,
                                            distr,
                                            shifted_ray_s(hp, w.s()),
                                            (depth + 1) as u32,
                                            li,
                                        )
                                        &&& r == v3_add_s(
                                            prim.emission.s(),
                                            v3_sdiv_s(
                                                v3_scale_s(
                                                    v3_cmul_s(
                                                        v3_sdiv_s(prim.color.s(), PI_FX as int),
                                                        li,
                                                    ),
                                                    wn,
                                                ),
                                                p,
                                            ),
                                        )
                                    }
                            }
                        },
                    Material::METALLIC => exists|li: V3s|
                        #![trigger v3_cmul_s(prim.color.s(), li)]
                        {
                            let rdir = v3_sub_s(
                                ray.direction.s(),
                                v3_scale_s(
                                    n0,
                                    mul_s(2 * SCALE as int, v3_dot_s(n0, ray.direction.s())),
                                ),
                            );
                            &&& radiance_ok(
                                scene,
                                distr,
                                shifted_ray_s(hp, rdir),
                                (depth + 1) as u32,
                                li,
                            )
                            &&& r == v3_cmul_s(prim.color.s(), li)
                        },
                    Material::DIELECTRIC { ior } => {
                        let nu1 = if i.outside {
                            SCALE as int
                        } else {
                            ior.v as int
                        };
                        let nu2 = if i.outside {
                            ior.v as int
                        } else {
                            SCALE as int
                        };
                        let nrd = v3_normalize_s(ray.direction.s());
                        let cos1 = neg_s(v3_dot_s(n0, nrd));
                        let sin2 = mul_s(
                            div_s(nu1, nu2),
                            sqrt_s(sub_s(SCALE as int, mul_s(cos1, cos1))),
                        );
                        let r0b = div_s(sub_s(nu1, nu2), add_s(nu1, nu2));
                        let r0 = mul_s(r0b, r0b);
                        let omc = sub_s(SCALE as int, cos1);
                        let omc5 = mul_s(mul_s(mul_s(mul_s(omc, omc), omc), omc), omc);
                        let coef = add_s(r0, mul_s(sub_s(SCALE as int, r0), omc5));
                        let refl_dir = v3_add_s(
                            nrd,
                            v3_scale_s(n0, mul_s(2 * SCALE as int, cos1)),
                        );
                        ||| (sin2 <= SCALE as int && coef < SCALE as int - 1 && {
                            let cos2 = sqrt_s(sub_s(SCALE as int, mul_s(sin2, sin2)));
                            let refr_dir = v3_add_s(
                                v3_scale_s(nrd, div_s(nu1, nu2)),
                                v3_scale_s(n0, sub_s(mul_s(div_s(nu1, nu2), cos1), cos2)),
                            );
                            if i.outside {
                                exists|li_refr: V3s|
                                    #![trigger v3_cmul_s(li_refr, prim.color.s())]
                                    {
                                        &&& radiance_ok(
                                            scene,
                                            distr,
                                            shifted_ray_s(hp, refr_dir),
                                            (depth + 1) as u32,
                                            li_refr,
                                        )
                                        &&& r == v3_cmul_s(li_refr, prim.color.s())
                                    }
                            } else {
                                radiance_ok(
                                    scene,
                                    distr,
                                    shifted_ray_s(hp, refr_dir),
                                    (depth + 1) as u32,
                                    r,
                                )
                            }
                        })
                        ||| ((sin2 > SCALE as int || coef >= 0) && radiance_ok(
                            scene,
                            distr,
                            shifted_ray_s(hp, refl_dir),
                            (depth + 1) as u32,
                            r,
                        ))
                    },
                }
            },
        }
    }
}

/// The radiance arriving along a ray, estimated recursively: black past the
/// depth budget; the background where the scene is missed; otherwise the
/// material's reflection model around the nearest hit (diffuse surfaces
/// importance-sample the global mixture, metals reflect, dielectrics split
/// between Schlick reflection and Snell refraction by a random draw).  The
/// result always satisfies the outcome relation [`radiance_ok`].
#[verifier::rlimit(100)]
pub fn get_ray_color(
    scene: &Scene,
    rng: &mut rand::rngs::StdRng,
    global_distr: &MixDistr,
    ray: &Ray,
    depth: u32,
) -> (r: Vec3)
    requires
        mix_wf(*global_distr),
    ensures
        radiance_ok(*scene, *global_distr, *ray, depth, r.s()),
        depth >= scene.ray_depth ==> r.s() == v3_all_s(0),
        (depth < scene.ray_depth && scene_hit_s(*ray, *scene, None) is None) ==> r.s()
            == scene.background_color.s(),
        (depth < scene.ray_depth && (forall|j: int|
            0 <= j < scene.primitives@.len() ==> #[trigger] prim_hit_s(
                *ray,
                scene.primitives@[j],
            ) is None)) ==> r.s() == scene.background_color.s(),
    decreases scene.ray_depth - depth,
{
    if depth >= scene.ray_depth {
        let z = v3_zero();
        proof {
            assert(radiance_ok(*scene, *global_distr, *ray, depth, z.s()));
        }
        return z;
    }
    match intersect_scene(ray, scene, None) {
        None => {
            let res = scene.background_color;
            proof {
                assert(radiance_ok(*scene, *global_distr, *ray, depth, res.s()));
            }
            res
        },
        Some((intersection, pidx)) => {
            let primitive = &scene.primitives[pidx];
            let intersection_point = v3_add(ray.point, v3_scale(ray.direction, intersection.ts[0]));
            let ghost mh = scene_hit_s(*ray, *scene, None).unwrap();
            let ghost hp = v3_add_s(ray.point.s(), v3_scale_s(ray.direction.s(), mh.0.ts[0]));
            let ghost n0 = mh.0.normals[0];
            proof {
                assert(intersection.s() == mh.0 && pidx as int == mh.1);
                assert(intersection.ts@[0].v as int == mh.0.ts[0]);
                assert(intersection.normals@[0].s() == n0);
                assert(intersection_point.s() == hp);
                lemma_v3_roundtrip(intersection_point);
            }
            match primitive.material {
                Material::DIFFUSE => {
                    let normal = intersection.normals[0];
                    let w = global_distr.sample(rng, &intersection_point, &normal);
                    let pdf = global_distr.pdf(&intersection_point, &normal, &w);
                    let wn = v3_dot(w, normal);
                    proof {
                        lemma_v3_roundtrip(normal);
                        assert(pdf.v as int == mix_pdf_s(
                            *global_distr,
                            v3_from_s(hp),
                            v3_from_s(n0),
                            w,
                        ));
                        assert(wn.v as int == v3_dot_s(w.s(), n0));
                    }
                    if pdf.v <= 0 || wn.v <= 0 {
                        let res = primitive.emission;
                        proof {
                            assert(radiance_ok(*scene, *global_distr, *ray, depth, res.s()));
                        }
                        res
                    } else {
                        let sray = build_shifted_ray(intersection_point, w);
                        let li = get_ray_color(scene, rng, global_distr, &sray, depth + 1);
                        let res = v3_add(
                            primitive.emission,
                            v3_sdiv(
                                v3_scale(v3_cmul(v3_sdiv(primitive.color, Fx { v: PI_FX }), li), wn),
                                pdf,
                            ),
                        );
                        proof {
                            lemma_v3_roundtrip(sray.point);
                            lemma_v3_roundtrip(w);
                            assert(sray == shifted_ray_s(hp, w.s()));
                            assert(radiance_ok(
                                *scene,
                                *global_distr,
                                shifted_ray_s(hp, w.s()),
                                (depth + 1) as u32,
                                li.s(),
                            ));
                            assert(radiance_ok(*scene, *global_distr, *ray, depth, res.s()));
                        }
                        res
                    }
                },
                Material::METALLIC => {
                    let normal = intersection.normals[0];
                    let reflected_direction = v3_sub(
                        ray.direction,
                        v3_scale(normal, fx_mul(Fx { v: 2 * SCALE }, v3_dot(normal, ray.direction))),
                    );
                    let sray = build_shifted_ray(intersection_point, reflected_direction);
                    let li = get_ray_color(scene, rng, global_distr, &sray, depth + 1);
                    let res = v3_cmul(primitive.color, li);
                    proof {
                        let rdir = v3_sub_s(
                            ray.direction.s(),
                            v3_scale_s(n0, mul_s(2 * SCALE as int, v3_dot_s(n0, ray.direction.s()))),
                        );
                        assert(reflected_direction.s() == rdir);
                        lemma_v3_roundtrip(sray.point);
                        lemma_v3_roundtrip(reflected_direction);
                        assert(sray == shifted_ray_s(hp, rdir));
                        assert(radiance_ok(
                            *scene,
                            *global_distr,
                            shifted_ray_s(hp, rdir),
                            (depth + 1) as u32,
                            li.s(),
                        ));
                        assert(radiance_ok(*scene, *global_distr, *ray, depth, res.s()));
                    }
                    res
                },
                Material::DIELECTRIC { ior } => {
                    let one = Fx { v: SCALE };
                    let (nu_1, nu_2) = if intersection.outside {
                        (one, ior)
                    } else {
                        (ior, one)
                    };
                    let normal = intersection.normals[0];
                    let normalized_ray_direction = v3_normalize(ray.direction);
                    let cos_theta_1 = fx_neg(v3_dot(normal, normalized_ray_direction));
                    let sin_theta_2 = fx_mul(
                        fx_div(nu_1, nu_2),
                        fx_sqrt(fx_sub(one, fx_mul(cos_theta_1, cos_theta_1))),
                    );
                    let reflected_dir = v3_add(
                        normalized_ray_direction,
                        v3_scale(normal, fx_mul(Fx { v: 2 * SCALE }, cos_theta_1)),
                    );
                    let r0_base = fx_div(fx_sub(nu_1, nu_2), fx_add(nu_1, nu_2));
                    let r_0 = fx_mul(r0_base, r0_base);
                    let omc = fx_sub(one, cos_theta_1);
                    let omc5 = fx_mul(fx_mul(fx_mul(fx_mul(omc, omc), omc), omc), omc);
                    let reflected_coef = fx_add(r_0, fx_mul(fx_sub(one, r_0), omc5));
                    let refl_sray = build_shifted_ray(intersection_point, reflected_dir);
                    let reflected_color = get_ray_color(scene, rng, global_distr, &refl_sray, depth + 1);
                    let draw = rand_fx_unit(rng);
                    let ghost nu1 = nu_1.v as int;
                    let ghost nu2 = nu_2.v as int;
                    let ghost nrd = v3_normalize_s(ray.direction.s());
                    let ghost cos1 = neg_s(v3_dot_s(n0, nrd));
                    let ghost sin2 = mul_s(
                        div_s(nu1, nu2),
                        sqrt_s(sub_s(SCALE as int, mul_s(cos1, cos1))),
                    );
                    let ghost coef = reflected_coef.v as int;
                    let ghost refl_dir_g = v3_add_s(
                        nrd,
                        v3_scale_s(n0, mul_s(2 * SCALE as int, cos1)),
                    );
                    proof {
                        assert(cos_theta_1.v as int == cos1);
                        assert(sin_theta_2.v as int == sin2);
                        assert(reflected_dir.s() == refl_dir_g);
                        lemma_v3_roundtrip(refl_sray.point);
                        lemma_v3_roundtrip(reflected_dir);
                        assert(refl_sray == shifted_ray_s(hp, refl_dir_g));
                    }
                    if sin_theta_2.v <= SCALE && draw.v > reflected_coef.v {
                        let cos_theta_2 = fx_sqrt(fx_sub(one, fx_mul(sin_theta_2, sin_theta_2)));
                        let refracted_dir = v3_add(
                            v3_scale(normalized_ray_direction, fx_div(nu_1, nu_2)),
                            v3_scale(
                                normal,
                                fx_sub(fx_mul(fx_div(nu_1, nu_2), cos_theta_1), cos_theta_2),
                            ),
                        );
                        let refr_sray = build_shifted_ray(intersection_point, refracted_dir);
                        let refracted_color = get_ray_color(
                            scene,
                            rng,
                            global_distr,
                            &refr_sray,
                            depth + 1,
                        );
                        let res = if intersection.outside {
                            v3_cmul(refracted_color, primitive.color)
                        } else {
                            refracted_color
                        };
                        proof {
                            let cos2 = sqrt_s(sub_s(SCALE as int, mul_s(sin2, sin2)));
                            let refr_dir_g = v3_add_s(
                                v3_scale_s(nrd, div_s(nu1, nu2)),
                                v3_scale_s(n0, sub_s(mul_s(div_s(nu1, nu2), cos1), cos2)),
                            );
                            assert(refracted_dir.s() == refr_dir_g);
                            lemma_v3_roundtrip(refr_sray.point);
                            lemma_v3_roundtrip(refracted_dir);
                            assert(refr_sray == shifted_ray_s(hp, refr_dir_g));
                            assert(sin2 <= SCALE as int && coef < SCALE as int - 1);
                            assert(radiance_ok(
                                *scene,
                                *global_distr,
                                shifted_ray_s(hp, refr_dir_g),
                                (depth + 1) as u32,
                                refracted_color.s(),
                            ));
                            assert(radiance_ok(*scene, *global_distr, *ray, depth, res.s()));
                        }
                        res
                    } else {
                        proof {
                            assert(sin2 > SCALE as int || coef >= 0);
                            assert(radiance_ok(
                                *scene,
                                *global_distr,
                                shifted_ray_s(hp, refl_dir_g),
                                (depth + 1) as u32,
                                reflected_color.s(),
                            ));
                            assert(radiance_ok(
                                *scene,
                                *global_distr,
                                *ray,
                                depth,
                                reflected_color.s(),
                            ));
                        }
                        reflected_color
                    }
                },
            }
        },
    }
}

/// The camera ray through the center of pixel (`row`, `col`): the pixel
/// center carried to `[-1, 1]` coordinates, scaled by the half-field-of-view
/// tangents (the vertical axis flipped), and combined with the camera basis.
pub open spec fn camera_ray_s(scene: Scene, row: int, col: int) -> Ray {
    let xl = add_s(col * SCALE as int, 32768);
    let yl = add_s(row * SCALE as int, 32768);
    let xg = mul_s(
        sub_s(
            div_s(mul_s(2 * SCALE as int, xl), scene.width as int * SCALE as int),
            SCALE as int,
        ),
        scene.camera.tan_half_fov_x.v as int,
    );
    let yg = mul_s(
        mul_s(
            sub_s(
                div_s(mul_s(2 * SCALE as int, yl), scene.height as int * SCALE as int),
                SCALE as int,
            ),
            scene.camera.tan_half_fov_y.v as int,
        ),
        -(SCALE as int),
    );
    Ray {
        point: scene.camera.position,
        direction: v3_from_s(
            v3_add_s(
                v3_add_s(
                    v3_scale_s(scene.camera.right_axis.s(), xg),
                    v3_scale_s(scene.camera.up_axis.s(), yg),
                ),
                scene.camera.forward_axis.s(),
            ),
        ),
    }
}

/// The fold of a sample sequence's first `k` radiances under fixed-point
/// vector addition.
pub open spec fn v3_sum_s(vals: Seq<V3s>, k: int) -> V3s
    decreases k,
{
    if k <= 0 {
        v3_all_s(0)
    } else {
        v3_add_s(v3_sum_s(vals, k - 1), vals[k - 1])
    }
}

proof fn lemma_v3_sum_prefix(s1: Seq<V3s>, s2: Seq<V3s>, k: int)
    requires
        forall|i: int| 0 <= i < k ==> s1[i] == s2[i],
    ensures
        v3_sum_s(s1, k) == v3_sum_s(s2, k),
    decreases k,
{
    if k > 0 {
        lemma_v3_sum_prefix(s1, s2, k - 1);
    }
}

/// The fixed-point mean of a pixel's sample radiances.
pub open spec fn mean_of_s(scene: Scene, vals: Seq<V3s>) -> V3s {
    v3_sdiv_s(v3_sum_s(vals, vals.len() as int), scene.samples as int * SCALE as int)
}

/// `vals` is an admissible sample set for pixel (`row`, `col`): one radiance
/// per sample, each satisfying the estimator's outcome relation
/// [`radiance_ok`] for the pixel's camera ray at depth zero.
pub open spec fn sample_set_ok(
    scene: Scene,
    distr: MixDistr,
    row: int,
    col: int,
    vals: Seq<V3s>,
) -> bool {
    &&& vals.len() == scene.samples as int
    &&& forall|k: int|
        0 <= k < vals.len() ==> radiance_ok(
            scene,
            distr,
            camera_ray_s(scene, row, col),
            0,
            #[trigger] vals[k],
        )
}

/// The three bytes of pixel (`row`, `col`) in the row-major image encode,
/// channel by channel, the tone-mapped fixed-point mean of an admissible
/// sample set for that pixel.
pub open spec fn pixel_ok(
    scene: Scene,
    distr: MixDistr,
    row: int,
    col: int,
    bytes: Seq<u8>,
) -> bool {
    let pi = row * (scene.width as int) + col;
    exists|vals: Seq<V3s>|
        #![trigger sample_set_ok(scene, distr, row, col, vals)]
        {
            &&& sample_set_ok(scene, distr, row, col, vals)
            &&& bytes[3 * pi] as int == channel_s(mean_of_s(scene, vals).x)
            &&& bytes[3 * pi + 1] as int == channel_s(mean_of_s(scene, vals).y)
            &&& bytes[3 * pi + 2] as int == channel_s(mean_of_s(scene, vals).z)
        }
}

proof fn lemma_pixel_ok_extend(
    scene: Scene,
    distr: MixDistr,
    row: int,
    col: int,
    b1: Seq<u8>,
    b2: Seq<u8>,
)
    requires
        pixel_ok(scene, distr, row, col, b1),
        0 <= row,
        0 <= col,
        3 * (row * (scene.width as int) + col) + 3 <= b1.len(),
        b1.len() <= b2.len(),
        forall|i: int| 0 <= i < b1.len() ==> b1[i] == b2[i],
    ensures
        pixel_ok(scene, distr, row, col, b2),
{
    let pi = row * (scene.width as int) + col;
    let vals = choose|vals: Seq<V3s>|
        {
            &&& sample_set_ok(scene, distr, row, col, vals)
            &&& b1[3 * pi] as int == channel_s(mean_of_s(scene, vals).x)
            &&& b1[3 * pi + 1] as int == channel_s(mean_of_s(scene, vals).y)
            &&& b1[3 * pi + 2] as int == channel_s(mean_of_s(scene, vals).z)
        };
    assert(0 <= pi) by (nonlinear_arith)
        requires
            0 <= row,
            0 <= col,
            pi == row * (scene.width as int) + col,
    ;
    assert(b2[3 * pi] == b1[3 * pi] && b2[3 * pi + 1] == b1[3 * pi + 1] && b2[3 * pi + 2] == b1[3
        * pi + 2]);
    assert(sample_set_ok(scene, distr, row, col, vals));
}

/// Render the whole image: one camera ray per pixel, `samples` independent
/// radiance estimates averaged, tone-mapped and gamma-encoded to three bytes
/// per pixel, row-major.  The result always holds `width*height*3` bytes,
/// and every pixel encodes the mean of a sample set bound by the estimator's
/// outcome relation for that pixel's camera ray, under the scene's global
/// sampling mixture; with a zero depth budget every pixel encodes black, and
/// with no primitives every pixel encodes the background color (whenever the
/// sample sum stays in range), whatever the seed.
#[verifier::loop_isolation(false)]
#[verifier::rlimit(100)]
pub fn render_scene(scene: &Scene, seed: u64) -> (r: Vec<u8>)
    requires
        scene_wf(*scene),
        scene.samples >= 1,
        scene.width as int * scene.height as int * 3 <= usize::MAX as int,
    ensures
        r@.len() == scene.width as int * scene.height as int * 3,
        exists|d: MixDistr|
            #![trigger mix_wf(d)]
            {
                &&& mix_wf(d)
                &&& global_distr_ok(*scene, d)
                &&& forall|rr: int, cc: int|
                    0 <= rr < scene.height as int && 0 <= cc < scene.width as int
                        ==> #[trigger] pixel_ok(*scene, d, rr, cc, r@)
            },
        (const_radiance_case(*scene) && mean_exact_bound(*scene)) ==> const_image_s(
            *scene,
            r@,
            r@.len() as int,
        ),
{
    let ghost cr = const_radiance_s(*scene);
    let global_distr = build_global_distr(scene);
    let mut rng = rng_from_seed(seed);
    let mut result: Vec<u8> = Vec::new();
    let w = scene.width;
    let h = scene.height;
    let half = Fx { v: 32768 };
    let mut row: u32 = 0;
    while row < h
        invariant
            row <= h,
            result@.len() == 3 * ((row as int) * (w as int)),
            forall|rr: int, cc: int|
                0 <= rr < row as int && 0 <= cc < w as int ==> #[trigger] pixel_ok(
                    *scene,
                    global_distr,
                    rr,
                    cc,
                    result@,
                ),
            (const_radiance_case(*scene) && mean_exact_bound(*scene)) ==> const_image_s(
                *scene,
                result@,
                result@.len() as int,
            ),
        decreases h - row,
    {
        let mut column: u32 = 0;
        while column < w
            invariant
                column <= w,
                result@.len() == 3 * ((row as int) * (w as int) + column as int),
                forall|rr: int, cc: int|
                    0 <= rr && 0 <= cc < w as int && (rr < row as int || (rr == row as int && cc
                        < column as int)) ==> #[trigger] pixel_ok(
                        *scene,
                        global_distr,
                        rr,
                        cc,
                        result@,
                    ),
                (const_radiance_case(*scene) && mean_exact_bound(*scene)) ==> const_image_s(
                    *scene,
                    result@,
                    result@.len() as int,
                ),
            decreases w - column,
        {
            let x_local = fx_add(fx_of_u32(column), half);
            let y_local = fx_add(fx_of_u32(row), half);
            let x_global = fx_mul(
                fx_sub(fx_div(fx_mul(Fx { v: 2 * SCALE }, x_local), fx_of_u32(w)), Fx { v: SCALE }),
                scene.camera.tan_half_fov_x,
            );
            let y_global = fx_mul(
                fx_mul(
                    fx_sub(
                        fx_div(fx_mul(Fx { v: 2 * SCALE }, y_local), fx_of_u32(h)),
                        Fx { v: SCALE },
                    ),
                    scene.camera.tan_half_fov_y,
                ),
                Fx { v: -SCALE },
            );
            let ray = Ray {
                point: scene.camera.position,
                direction: v3_add(
                    v3_add(
                        v3_scale(scene.camera.right_axis, x_global),
                        v3_scale(scene.camera.up_axis, y_global),
                    ),
                    scene.camera.forward_axis,
                ),
            };
            proof {
                lemma_v3_roundtrip(ray.direction);
                assert(ray == camera_ray_s(*scene, row as int, column as int));
            }
            let mut acc = v3_zero();
            let mut si: u32 = 0;
            let ghost mut vals: Seq<V3s> = Seq::empty();
            while si < scene.samples
                invariant
                    si <= scene.samples,
                    vals.len() == si as int,
                    forall|k: int|
                        0 <= k < vals.len() ==> radiance_ok(
                            *scene,
                            global_distr,
                            ray,
                            0,
                            #[trigger] vals[k],
                        ),
                    acc.s() == v3_sum_s(vals, vals.len() as int),
                    (const_radiance_case(*scene) && mean_exact_bound(*scene)) ==> (acc.x.v as int
                        == si as int * cr.x && acc.y.v as int == si as int * cr.y && acc.z.v as int
                        == si as int * cr.z),
                decreases scene.samples - si,
            {
                let c = get_ray_color(scene, &mut rng, &global_distr, &ray, 0);
                proof {
                    if const_radiance_case(*scene) && mean_exact_bound(*scene) {
                        if scene.ray_depth == 0 {
                        } else {
                            assert(scene.primitives@.len() == 0);
                            assert(scene_hit_s(ray, *scene, None) is None);
                        }
                        assert(c.s() == cr);
                        lemma_scaled_bound(si as int, scene.samples as int, cr.x);
                        lemma_scaled_bound(si as int, scene.samples as int, cr.y);
                        lemma_scaled_bound(si as int, scene.samples as int, cr.z);
                        lemma_scaled_bound(si as int + 1, scene.samples as int, cr.x);
                        lemma_scaled_bound(si as int + 1, scene.samples as int, cr.y);
                        lemma_scaled_bound(si as int + 1, scene.samples as int, cr.z);
                    }
                }
                acc = v3_add(acc, c);
                proof {
                    lemma_v3_sum_prefix(vals, vals.push(c.s()), vals.len() as int);
                    vals = vals.push(c.s());
                }
                si += 1;
            }
            let mean = v3_sdiv(acc, fx_of_u32(scene.samples));
            proof {
                assert(mean.s() == mean_of_s(*scene, vals));
                if const_radiance_case(*scene) && mean_exact_bound(*scene) {
                    lemma_scaled_bound(1, scene.samples as int, cr.x);
                    lemma_scaled_bound(1, scene.samples as int, cr.y);
                    lemma_scaled_bound(1, scene.samples as int, cr.z);
                    lemma_div_exact(cr.x, scene.samples as int);
                    lemma_div_exact(cr.y, scene.samples as int);
                    lemma_div_exact(cr.z, scene.samples as int);
                    assert(mean.s() == cr);
                }
            }
            let px = proportion_to_value(mean);
            let ghost prev = result@;
            proof {
                let k = (row as int) * (w as int) + column as int;
                assert((3 * k) % 3 == 0 && (3 * k + 1) % 3 == 1 && (3 * k + 2) % 3 == 2)
                    by (nonlinear_arith)
                    requires
                        k >= 0,
                ;
            }
            result.push(px[0]);
            result.push(px[1]);
            result.push(px[2]);
            proof {
                assert(sample_set_ok(*scene, global_distr, row as int, column as int, vals));
                assert(pixel_ok(*scene, global_distr, row as int, column as int, result@));
                assert forall|rr: int, cc: int|
                    0 <= rr && 0 <= cc < w as int && (rr < row as int || (rr == row as int && cc
                        < column as int)) implies #[trigger] pixel_ok(
                    *scene,
                    global_distr,
                    rr,
                    cc,
                    result@,
                ) by {
                    assert(3 * (rr * (scene.width as int) + cc) + 3 <= prev.len())
                        by (nonlinear_arith)
                        requires
                            0 <= rr,
                            0 <= cc < w as int,
                            rr < row as int || (rr == row as int && cc < column as int),
                            w == scene.width,
                            prev.len() == 3 * ((row as int) * (w as int) + column as int),
                    ;
                    lemma_pixel_ok_extend(*scene, global_distr, rr, cc, prev, result@);
                }
            }
            column += 1;
        }
        proof {
            assert((row as int) * (w as int) + (w as int) == (row as int + 1) * (w as int))
                by (nonlinear_arith);
        }
        row += 1;
    }
    proof {
        assert(3 * ((h as int) * (w as int)) == (w as int) * (h as int) * 3) by (nonlinear_arith);
        assert(mix_wf(global_distr));
        assert(forall|rr: int, cc: int|
            0 <= rr < scene.height as int && 0 <= cc < scene.width as int
                ==> #[trigger] pixel_ok(*scene, global_distr, rr, cc, result@));
    }
    result
}

} // verus!
