use pathtrace::fx::{
    fx_abs, fx_add, fx_div, fx_mul, fx_neg, fx_sqrt, fx_sub, Fx, FX_MAX, SCALE,
};
use pathtrace::geometry::{intersect_scene, Ray, Shape};
use pathtrace::quat::{q_conjugate, q_rotate, Quat};
use pathtrace::scene::{Camera, Material, Primitive, Scene};
use pathtrace::vec3::{v3_dot, v3_norm, v3_normalize, Vec3};

fn fx(v: i64) -> Fx {
    Fx { v }
}

fn v3(x: i64, y: i64, z: i64) -> Vec3 {
    Vec3 { x: fx(x), y: fx(y), z: fx(z) }
}

#[test]
fn scalar_arithmetic_is_exact_on_representable_values() {
    assert_eq!(fx_add(fx(3 * SCALE), fx(4 * SCALE)), fx(7 * SCALE));
    assert_eq!(fx_sub(fx(3 * SCALE), fx(4 * SCALE)), fx(-SCALE));
    // 1.5 * 2.5 == 3.75
    assert_eq!(fx_mul(fx(98304), fx(163840)), fx(245760));
    // 7 / 2 == 3.5
    assert_eq!(fx_div(fx(7 * SCALE), fx(2 * SCALE)), fx(229376));
    assert_eq!(fx_neg(fx(5)), fx(-5));
    assert_eq!(fx_abs(fx(-5)), fx(5));
}

#[test]
fn scalar_operations_saturate_instead_of_overflowing() {
    assert_eq!(fx_add(fx(i64::MAX), fx(i64::MAX)).v, FX_MAX);
    assert_eq!(fx_mul(fx(i64::MAX), fx(i64::MAX)).v, FX_MAX);
    assert_eq!(fx_sub(fx(-FX_MAX), fx(FX_MAX)).v, -FX_MAX);
}

#[test]
fn division_by_zero_saturates_by_sign() {
    assert_eq!(fx_div(fx(SCALE), fx(0)).v, FX_MAX);
    assert_eq!(fx_div(fx(-SCALE), fx(0)).v, -FX_MAX);
    assert_eq!(fx_div(fx(0), fx(0)).v, 0);
}

#[test]
fn square_root_is_the_floor_root() {
    assert_eq!(fx_sqrt(fx(4 * SCALE)), fx(2 * SCALE));
    // sqrt(2) in fixed point, truncated.
    assert_eq!(fx_sqrt(fx(2 * SCALE)), fx(92681));
    assert_eq!(fx_sqrt(fx(0)), fx(0));
    assert_eq!(fx_sqrt(fx(-SCALE)), fx(0));
}

#[test]
fn normalization_gives_unit_vectors() {
    let n = v3_normalize(v3(3 * SCALE, 4 * SCALE, 0));
    assert_eq!(n, v3(39321, 52428, 0));
    assert_eq!(v3_norm(v3(3 * SCALE, 4 * SCALE, 0)), fx(5 * SCALE));
    // Unit length up to the scalar's truncation: the self-inner-product of
    // the normalized vector lands a few steps under one.
    assert_eq!(v3_dot(n, n).v, 65533);
}

#[test]
fn quarter_turn_rotation_is_exact() {
    // 90 degrees about +z carries +x to +y.
    let s45 = 46341;
    let q = Quat { x: fx(0), y: fx(0), z: fx(s45), w: fx(s45) };
    assert_eq!(q_rotate(q, v3(SCALE, 0, 0)), v3(0, SCALE, 0));
}

#[test]
fn half_turn_rotation_and_conjugate() {
    let q = Quat { x: fx(0), y: fx(0), z: fx(SCALE), w: fx(0) };
    assert_eq!(q_rotate(q, v3(SCALE, 0, 0)), v3(-SCALE, 0, 0));
    let qc = q_conjugate(q);
    assert_eq!(q_rotate(qc, q_rotate(q, v3(SCALE, 2 * SCALE, 0))), v3(SCALE, 2 * SCALE, 0));
}

#[test]
fn rotated_primitive_intersects_in_world_space() {
    // A 2x1x1 box turned half a turn about +z: a ray along -x still meets
    // it at x = 2 and x = -2, and the reported world normals face the ray.
    let p = Primitive {
        shape: Shape::Cuboid { s: v3(2 * SCALE, SCALE, SCALE) },
        color: v3(SCALE, SCALE, SCALE),
        position: v3(0, 0, 0),
        rotation: Quat { x: fx(0), y: fx(0), z: fx(SCALE), w: fx(0) },
        material: Material::DIFFUSE,
        emission: v3(0, 0, 0),
    };
    let scene = Scene {
        width: 1,
        height: 1,
        background_color: v3(0, 0, 0),
        camera: Camera {
            position: v3(0, 0, 0),
            right_axis: v3(SCALE, 0, 0),
            up_axis: v3(0, SCALE, 0),
            forward_axis: v3(0, 0, SCALE),
            tan_half_fov_x: fx(SCALE),
            tan_half_fov_y: fx(SCALE),
        },
        primitives: vec![p],
        ray_depth: 1,
        ambient_light: v3(0, 0, 0),
        lights: vec![],
        samples: 1,
    };
    let ray = Ray { point: v3(5 * SCALE, 0, 0), direction: v3(-SCALE, 0, 0) };
    let (i, idx) = intersect_scene(&ray, &scene, None).expect("hit");
    assert_eq!(idx, 0);
    assert_eq!(i.ts[0], fx(3 * SCALE));
    assert_eq!(i.ts[1], fx(7 * SCALE));
    assert_eq!(i.normals[0], v3(SCALE, 0, 0));
    assert_eq!(i.normals[1], v3(-SCALE, 0, 0));
    assert!(i.outside);
}
