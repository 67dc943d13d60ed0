use pathtrace::fx::{Fx, SCALE};
use pathtrace::geometry::{Ray, Shape};
use pathtrace::quat::Quat;
use pathtrace::rendering::{
    aces_tonemap, build_global_distr, get_ray_color, proportion_to_value, render_scene,
};
use pathtrace::rng::rng_from_seed;
use pathtrace::scene::{Camera, Material, Primitive, Scene};
use pathtrace::vec3::Vec3;

fn fx(v: i64) -> Fx {
    Fx { v }
}

fn v3(x: i64, y: i64, z: i64) -> Vec3 {
    Vec3 { x: fx(x), y: fx(y), z: fx(z) }
}

fn qid() -> Quat {
    Quat { x: fx(0), y: fx(0), z: fx(0), w: fx(SCALE) }
}

fn camera() -> Camera {
    Camera {
        position: v3(0, 0, -5 * SCALE),
        right_axis: v3(SCALE, 0, 0),
        up_axis: v3(0, SCALE, 0),
        forward_axis: v3(0, 0, SCALE),
        tan_half_fov_x: fx(SCALE),
        tan_half_fov_y: fx(SCALE),
    }
}

fn scene_of(primitives: Vec<Primitive>, background: Vec3, ray_depth: u32, samples: u32) -> Scene {
    Scene {
        width: 4,
        height: 3,
        background_color: background,
        camera: camera(),
        primitives,
        ray_depth,
        ambient_light: v3(0, 0, 0),
        lights: vec![],
        samples,
    }
}

fn diffuse_sphere() -> Primitive {
    Primitive {
        shape: Shape::Ellipsoid { r: v3(SCALE, SCALE, SCALE) },
        color: v3(SCALE, SCALE, SCALE),
        position: v3(0, 0, 0),
        rotation: qid(),
        material: Material::DIFFUSE,
        emission: v3(0, 0, 0),
    }
}

fn emissive_box() -> Primitive {
    Primitive {
        shape: Shape::Cuboid { s: v3(SCALE, SCALE, SCALE) },
        color: v3(0, 0, 0),
        position: v3(3 * SCALE, 0, -3 * SCALE),
        rotation: qid(),
        material: Material::DIFFUSE,
        emission: v3(5 * SCALE, 5 * SCALE, 5 * SCALE),
    }
}

#[test]
fn tonemap_fixes_zero_and_compresses_one() {
    assert_eq!(aces_tonemap(fx(0)).v, 0);
    // 1.0 maps through the ACES curve to about 0.8038 (52677 steps).
    assert_eq!(aces_tonemap(fx(SCALE)).v, 52677);
    assert_eq!(aces_tonemap(fx(SCALE / 2)).v, 40389);
}

#[test]
fn pixel_encoding_matches_hand_computed_bytes() {
    assert_eq!(proportion_to_value(v3(0, 0, 0)), [0, 0, 0]);
    assert_eq!(proportion_to_value(v3(SCALE, SCALE / 2, SCALE / 4)), [231, 205, 163]);
}

#[test]
fn empty_scene_renders_pure_background() {
    // Round trip of the tone-mapping pipeline: with no primitives, every
    // pixel is exactly the encoded background color.
    let background = v3(SCALE / 2, SCALE / 4, SCALE);
    let scene = scene_of(vec![], background, 2, 3);
    let image = render_scene(&scene, 9);
    assert_eq!(image.len(), 4 * 3 * 3);
    let expected = proportion_to_value(background);
    for px in image.chunks(3) {
        assert_eq!(px, expected);
    }
    assert_eq!(&image[0..3], [205, 163, 231]);
}

#[test]
fn zero_depth_renders_black_regardless_of_scene() {
    let background = v3(SCALE / 2, SCALE / 4, SCALE);
    let scene = scene_of(vec![diffuse_sphere(), emissive_box()], background, 0, 2);
    let image = render_scene(&scene, 1);
    assert_eq!(image.len(), 4 * 3 * 3);
    for b in image {
        assert_eq!(b, 0);
    }
}

#[test]
fn same_seed_renders_identical_images() {
    let mut primitives = vec![diffuse_sphere(), emissive_box()];
    primitives.push(Primitive {
        shape: Shape::Ellipsoid { r: v3(SCALE, SCALE, SCALE) },
        color: v3(SCALE, SCALE / 2, SCALE / 2),
        position: v3(-3 * SCALE, 0, 0),
        rotation: qid(),
        material: Material::METALLIC,
        emission: v3(0, 0, 0),
    });
    primitives.push(Primitive {
        shape: Shape::Ellipsoid { r: v3(SCALE, SCALE, SCALE) },
        color: v3(SCALE, SCALE, SCALE),
        position: v3(0, 3 * SCALE, 0),
        rotation: qid(),
        material: Material::DIELECTRIC { ior: fx(98304) },
        emission: v3(0, 0, 0),
    });
    let scene = scene_of(primitives, v3(SCALE / 4, SCALE / 4, SCALE / 2), 3, 2);
    let first = render_scene(&scene, 7);
    let second = render_scene(&scene, 7);
    assert_eq!(first.len(), 4 * 3 * 3);
    assert_eq!(first, second);
}

#[test]
fn lit_diffuse_sphere_reflects_less_than_the_emission() {
    // A unit-reflectance diffuse sphere lit by one emissive box: the mean
    // estimated radiance at depth limit 2 is strictly positive and strictly
    // below the light's raw emission.
    let scene = scene_of(vec![diffuse_sphere(), emissive_box()], v3(0, 0, 0), 2, 1);
    let global = build_global_distr(&scene);
    let mut rng = rng_from_seed(2);
    let ray = Ray { point: v3(0, 0, -5 * SCALE), direction: v3(0, 0, SCALE) };
    let n = 800;
    let mut sum = 0.0f64;
    for _ in 0..n {
        let c = get_ray_color(&scene, &mut rng, &global, &ray, 0);
        sum += c.x.v as f64 / SCALE as f64;
    }
    let mean = sum / n as f64;
    assert!(mean > 0.0, "mean {}", mean);
    assert!(mean < 5.0, "mean {}", mean);
}

#[test]
fn rays_missing_everything_return_the_background() {
    // The integrator's no-hit fallback, separately from the image loop.
    let background = v3(SCALE / 2, SCALE / 4, SCALE);
    let scene = scene_of(vec![diffuse_sphere()], background, 2, 1);
    let global = build_global_distr(&scene);
    let mut rng = rng_from_seed(4);
    let ray = Ray { point: v3(0, 0, -5 * SCALE), direction: v3(0, SCALE, 0) };
    let c = get_ray_color(&scene, &mut rng, &global, &ray, 0);
    assert_eq!(c, background);
}
