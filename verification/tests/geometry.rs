use pathtrace::fx::{Fx, FX_MAX, SCALE};
use pathtrace::geometry::{
    build_shifted_ray, intersect_primitive, intersect_scene, intersect_shape, Ray, Shape,
};
use pathtrace::quat::Quat;
use pathtrace::scene::{Camera, Material, Primitive, Scene};
use pathtrace::vec3::Vec3;

fn fx(v: i64) -> Fx {
    Fx { v }
}

fn v3(x: i64, y: i64, z: i64) -> Vec3 {
    Vec3 { x: fx(x), y: fx(y), z: fx(z) }
}

fn qid() -> Quat {
    Quat { x: fx(0), y: fx(0), z: fx(0), w: fx(SCALE) }
}

fn prim(shape: Shape, position: Vec3) -> Primitive {
    Primitive {
        shape,
        color: v3(SCALE, SCALE, SCALE),
        position,
        rotation: qid(),
        material: Material::DIFFUSE,
        emission: v3(0, 0, 0),
    }
}

fn scene_of(primitives: Vec<Primitive>) -> Scene {
    Scene {
        width: 4,
        height: 4,
        background_color: v3(0, 0, 0),
        camera: Camera {
            position: v3(0, 0, 0),
            right_axis: v3(SCALE, 0, 0),
            up_axis: v3(0, SCALE, 0),
            forward_axis: v3(0, 0, SCALE),
            tan_half_fov_x: fx(SCALE),
            tan_half_fov_y: fx(SCALE),
        },
        primitives,
        ray_depth: 2,
        ambient_light: v3(0, 0, 0),
        lights: vec![],
        samples: 1,
    }
}

#[test]
fn plane_hit_reports_outward_normal_and_distance() {
    // Normal +z, origin two units toward +z, direction -z: approaching the
    // plane against its normal, so the hit is at t = 2 with the normal kept
    // as given and the origin counted as outside.
    let ray = Ray { point: v3(0, 0, 2 * SCALE), direction: v3(0, 0, -SCALE) };
    let shape = Shape::Plane { normal: v3(0, 0, SCALE) };
    let i = intersect_shape(&ray, &shape).expect("plane hit");
    assert_eq!(i.ts.len(), 1);
    assert_eq!(i.ts[0], fx(2 * SCALE));
    assert_eq!(i.normals[0], v3(0, 0, SCALE));
    assert!(i.outside);
}

#[test]
fn plane_hit_from_behind_flips_normal() {
    let ray = Ray { point: v3(0, 0, -2 * SCALE), direction: v3(0, 0, SCALE) };
    let shape = Shape::Plane { normal: v3(0, 0, SCALE) };
    let i = intersect_shape(&ray, &shape).expect("plane hit");
    assert_eq!(i.ts[0], fx(2 * SCALE));
    assert_eq!(i.normals[0], v3(0, 0, -SCALE));
    assert!(!i.outside);
}

#[test]
fn plane_parallel_ray_misses() {
    let ray = Ray { point: v3(0, 0, 2 * SCALE), direction: v3(SCALE, 0, 0) };
    let shape = Shape::Plane { normal: v3(0, 0, SCALE) };
    assert!(intersect_shape(&ray, &shape).is_none());
}

#[test]
fn box_ray_from_outside_two_roots() {
    // Unit half-extents, ray from (5,0,0) toward -x: entry 4, exit 6,
    // axis-aligned normals, origin outside.
    let ray = Ray { point: v3(5 * SCALE, 0, 0), direction: v3(-SCALE, 0, 0) };
    let shape = Shape::Cuboid { s: v3(SCALE, SCALE, SCALE) };
    let i = intersect_shape(&ray, &shape).expect("box hit");
    assert_eq!(i.ts.len(), 2);
    assert_eq!(i.ts[0], fx(4 * SCALE));
    assert_eq!(i.ts[1], fx(6 * SCALE));
    assert_eq!(i.normals[0], v3(SCALE, 0, 0));
    assert_eq!(i.normals[1], v3(-SCALE, 0, 0));
    assert!(i.outside);
}

#[test]
fn box_ray_beside_misses() {
    let ray = Ray { point: v3(5 * SCALE, 3 * SCALE, 0), direction: v3(-SCALE, 0, 0) };
    let shape = Shape::Cuboid { s: v3(SCALE, SCALE, SCALE) };
    assert!(intersect_shape(&ray, &shape).is_none());
}

#[test]
fn unit_sphere_from_inside_single_root() {
    // Origin at the center: only the exit root at t = 1, origin inside,
    // normal flipped to face the interior's outward convention.
    let ray = Ray { point: v3(0, 0, 0), direction: v3(SCALE, 0, 0) };
    let shape = Shape::Ellipsoid { r: v3(SCALE, SCALE, SCALE) };
    let i = intersect_shape(&ray, &shape).expect("sphere hit");
    assert_eq!(i.ts.len(), 1);
    assert_eq!(i.ts[0], fx(SCALE));
    assert!(!i.outside);
    assert_eq!(i.normals[0], v3(-SCALE, 0, 0));
}

#[test]
fn unit_sphere_from_outside_two_roots() {
    let ray = Ray { point: v3(0, 0, -5 * SCALE), direction: v3(0, 0, SCALE) };
    let shape = Shape::Ellipsoid { r: v3(SCALE, SCALE, SCALE) };
    let i = intersect_shape(&ray, &shape).expect("sphere hit");
    assert_eq!(i.ts.len(), 2);
    assert_eq!(i.ts[0], fx(4 * SCALE));
    assert_eq!(i.ts[1], fx(6 * SCALE));
    assert!(i.outside);
    assert_eq!(i.normals[0], v3(0, 0, -SCALE));
    assert_eq!(i.normals[1], v3(0, 0, SCALE));
}

#[test]
fn sphere_missed_entirely() {
    let ray = Ray { point: v3(0, 0, -5 * SCALE), direction: v3(0, SCALE, 0) };
    let shape = Shape::Ellipsoid { r: v3(SCALE, SCALE, SCALE) };
    assert!(intersect_shape(&ray, &shape).is_none());
}

#[test]
fn intersect_primitive_works_in_local_frame() {
    // A unit sphere translated to (0,0,3): a ray from the world origin
    // toward +z meets it at t = 2 in the primitive's local frame.
    let p = prim(Shape::Ellipsoid { r: v3(SCALE, SCALE, SCALE) }, v3(0, 0, 3 * SCALE));
    let ray = Ray { point: v3(0, 0, 0), direction: v3(0, 0, SCALE) };
    let i = intersect_primitive(&ray, &p).expect("hit");
    assert_eq!(i.ts[0], fx(2 * SCALE));
    assert!(i.outside);
}

#[test]
fn scene_misses_when_every_primitive_misses() {
    let p = prim(Shape::Ellipsoid { r: v3(SCALE, SCALE, SCALE) }, v3(0, 5 * SCALE, 0));
    let scene = scene_of(vec![p]);
    let ray = Ray { point: v3(0, 0, 0), direction: v3(SCALE, 0, 0) };
    assert!(intersect_scene(&ray, &scene, None).is_none());
}

#[test]
fn scene_picks_nearest_primitive() {
    let near = prim(Shape::Ellipsoid { r: v3(SCALE, SCALE, SCALE) }, v3(3 * SCALE, 0, 0));
    let far = prim(Shape::Ellipsoid { r: v3(SCALE, SCALE, SCALE) }, v3(6 * SCALE, 0, 0));
    let scene = scene_of(vec![far, near]);
    let ray = Ray { point: v3(0, 0, 0), direction: v3(SCALE, 0, 0) };
    let (i, idx) = intersect_scene(&ray, &scene, None).expect("hit");
    assert_eq!(idx, 1);
    assert_eq!(i.ts[0], fx(2 * SCALE));
}

#[test]
fn distance_cap_rejects_far_hit() {
    let p = prim(Shape::Ellipsoid { r: v3(SCALE, SCALE, SCALE) }, v3(6 * SCALE, 0, 0));
    let scene = scene_of(vec![p]);
    let ray = Ray { point: v3(0, 0, 0), direction: v3(SCALE, 0, 0) };
    assert!(intersect_scene(&ray, &scene, Some(fx(4 * SCALE))).is_none());
    assert!(intersect_scene(&ray, &scene, Some(fx(6 * SCALE))).is_some());
}

#[test]
fn shifted_ray_offsets_origin_along_direction() {
    let r = build_shifted_ray(v3(0, 0, 0), v3(SCALE, 0, 0));
    // The offset is EPS = 7 fixed-point steps along the unit +x direction.
    assert_eq!(r.point, v3(7, 0, 0));
    assert_eq!(r.direction, v3(SCALE, 0, 0));
}

#[test]
fn saturation_keeps_box_slabs_total() {
    // A ray parallel to two slab axes: the per-axis quotients saturate at
    // the scalar's range instead of overflowing, and the slab test still
    // finds the two x roots.
    let ray = Ray { point: v3(5 * SCALE, 0, 0), direction: v3(-SCALE, 0, 0) };
    let shape = Shape::Cuboid { s: v3(SCALE, SCALE, SCALE) };
    let i = intersect_shape(&ray, &shape).expect("hit");
    assert!(i.ts[0].v < i.ts[1].v);
    assert!(i.ts[1].v < FX_MAX);
}
