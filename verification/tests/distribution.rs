use pathtrace::distribution::{
    generate_unit_on_sphere, CosineWeightedDistr, Distr, LightSourceDistr, MixDistr,
};
use pathtrace::fx::{Fx, SCALE};
use pathtrace::geometry::Shape;
use pathtrace::quat::Quat;
use pathtrace::rng::rng_from_seed;
use pathtrace::scene::{Material, Primitive};
use pathtrace::vec3::Vec3;

fn fx(v: i64) -> Fx {
    Fx { v }
}

fn v3(x: i64, y: i64, z: i64) -> Vec3 {
    Vec3 { x: fx(x), y: fx(y), z: fx(z) }
}

fn qid() -> Quat {
    Quat { x: fx(0), y: fx(0), z: fx(0), w: fx(SCALE) }
}

fn unit_sphere_light() -> Primitive {
    Primitive {
        shape: Shape::Ellipsoid { r: v3(SCALE, SCALE, SCALE) },
        color: v3(0, 0, 0),
        position: v3(0, 0, 0),
        rotation: qid(),
        material: Material::DIFFUSE,
        emission: v3(5 * SCALE, 5 * SCALE, 5 * SCALE),
    }
}

fn f(v: Fx) -> f64 {
    v.v as f64 / SCALE as f64
}

#[test]
fn cosine_pdf_along_normal_is_one_over_pi() {
    let c = CosineWeightedDistr {};
    let p = c.pdf(&v3(0, 0, 0), &v3(0, 0, SCALE), &v3(0, 0, SCALE));
    // 1/pi in fixed point: 65536*65536 / 205887, truncated.
    assert_eq!(p.v, 20860);
}

#[test]
fn cosine_pdf_below_hemisphere_is_zero() {
    let c = CosineWeightedDistr {};
    let p = c.pdf(&v3(0, 0, 0), &v3(0, 0, SCALE), &v3(0, 0, -SCALE));
    assert_eq!(p.v, 0);
}

#[test]
fn light_pdf_sums_both_sphere_roots() {
    // Ray from (0,0,-5) straight through a unit sphere at the origin: roots
    // at t=4 and t=6; the solid-angle densities of the two crossings add up.
    let l = LightSourceDistr { primitive: unit_sphere_light() };
    let p = l.pdf(&v3(0, 0, -5 * SCALE), &v3(0, 0, SCALE), &v3(0, 0, SCALE));
    assert_eq!(p.v, 271180);
}

#[test]
fn light_pdf_zero_when_ray_misses() {
    let l = LightSourceDistr { primitive: unit_sphere_light() };
    let p = l.pdf(&v3(0, 0, -5 * SCALE), &v3(0, 0, SCALE), &v3(0, SCALE, 0));
    assert_eq!(p.v, 0);
}

#[test]
fn mixture_pdf_is_mean_of_members() {
    // Two identical members: the mean is the member's own density.
    let m = MixDistr {
        distribs: vec![
            Distr::Cosine(CosineWeightedDistr {}),
            Distr::Cosine(CosineWeightedDistr {}),
        ],
    };
    let p = m.pdf(&v3(0, 0, 0), &v3(0, 0, SCALE), &v3(0, 0, SCALE));
    assert_eq!(p.v, 20860);
}

#[test]
fn mixture_pdf_averages_distinct_members() {
    // A cosine member (density 20860 here) and a light the direction
    // misses (density 0): the mixture density is the mean, 10430.
    let m = MixDistr {
        distribs: vec![
            Distr::Cosine(CosineWeightedDistr {}),
            Distr::Light(LightSourceDistr { primitive: unit_sphere_light() }),
        ],
    };
    let p = m.pdf(&v3(0, 0, -5 * SCALE), &v3(0, SCALE, 0), &v3(0, SCALE, 0));
    assert_eq!(p.v, 10430);
}

#[test]
fn unit_sphere_samples_have_unit_length() {
    let mut rng = rng_from_seed(11);
    for _ in 0..200 {
        let u = generate_unit_on_sphere(&mut rng);
        let n = (f(u.x).powi(2) + f(u.y).powi(2) + f(u.z).powi(2)).sqrt();
        assert!((n - 1.0).abs() < 0.01, "norm {}", n);
    }
}

#[test]
fn cosine_sample_mean_cosine_approaches_two_thirds() {
    // The expected value of cos(theta) under cosine-weighted hemisphere
    // sampling is 2/3; the empirical mean over many draws must approach it.
    let c = CosineWeightedDistr {};
    let mut rng = rng_from_seed(5);
    let normal = v3(0, 0, SCALE);
    let n = 20000;
    let mut sum = 0.0f64;
    for _ in 0..n {
        let w = c.sample(&mut rng, &v3(0, 0, 0), &normal);
        sum += f(w.z);
    }
    let mean = sum / n as f64;
    assert!((mean - 2.0 / 3.0).abs() < 0.02, "mean {}", mean);
}

#[test]
fn light_sample_points_toward_the_light() {
    // Samples of a unit sphere at (0,0,4) drawn from the origin all point
    // into the cone around +z that the sphere subtends.
    let mut p = unit_sphere_light();
    p.position = v3(0, 0, 4 * SCALE);
    let l = LightSourceDistr { primitive: p };
    let mut rng = rng_from_seed(3);
    for _ in 0..200 {
        let w = l.sample(&mut rng, &v3(0, 0, 0), &v3(0, 0, SCALE));
        assert!(f(w.z) > 0.8, "direction {:?}", w);
    }
}

#[test]
fn box_light_samples_lie_on_its_surface() {
    let p = Primitive {
        shape: Shape::Cuboid { s: v3(SCALE, SCALE, SCALE) },
        color: v3(0, 0, 0),
        position: v3(0, 0, 0),
        rotation: qid(),
        material: Material::DIFFUSE,
        emission: v3(SCALE, SCALE, SCALE),
    };
    let l = LightSourceDistr { primitive: p };
    let mut rng = rng_from_seed(17);
    // Sampling from far away on +x: every direction must come back roughly
    // toward the box around -x.
    for _ in 0..200 {
        let w = l.sample(&mut rng, &v3(10 * SCALE, 0, 0), &v3(-SCALE, 0, 0));
        assert!(f(w.x) < -0.9, "direction {:?}", w);
    }
}

#[test]
fn mixture_sample_delegates_to_members() {
    let m = MixDistr {
        distribs: vec![
            Distr::Cosine(CosineWeightedDistr {}),
            Distr::Light(LightSourceDistr { primitive: unit_sphere_light() }),
        ],
    };
    let mut rng = rng_from_seed(23);
    for _ in 0..100 {
        let w = m.sample(&mut rng, &v3(0, 0, -5 * SCALE), &v3(0, 0, SCALE));
        let n = (f(w.x).powi(2) + f(w.y).powi(2) + f(w.z).powi(2)).sqrt();
        assert!((n - 1.0).abs() < 0.01, "norm {}", n);
    }
}
