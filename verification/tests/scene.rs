use pathtrace::fx::{Fx, SCALE};
use pathtrace::scene::{get_light_characteristic_to_point, Light, LightType};
use pathtrace::vec3::Vec3;

fn fx(v: i64) -> Fx {
    Fx { v }
}

fn v3(x: i64, y: i64, z: i64) -> Vec3 {
    Vec3 { x: fx(x), y: fx(y), z: fx(z) }
}

#[test]
fn directed_light_passes_through_unchanged() {
    let light = Light {
        intensity: v3(SCALE, SCALE / 2, 0),
        ltype: LightType::Directed { direction: v3(0, SCALE, 0) },
    };
    let (dir, intensity, dist) = get_light_characteristic_to_point(&light, &v3(0, 0, 0));
    assert_eq!(dir, v3(0, SCALE, 0));
    assert_eq!(intensity, v3(SCALE, SCALE / 2, 0));
    assert!(dist.is_none());
}

#[test]
fn point_light_attenuates_by_distance() {
    // Constant attenuation 1: the intensity arrives unchanged, the distance
    // is the norm of the offset.
    let light = Light {
        intensity: v3(2 * SCALE, SCALE, 0),
        ltype: LightType::Point {
            position: v3(0, 0, 3 * SCALE),
            attenuation: v3(SCALE, 0, 0),
        },
    };
    let (dir, intensity, dist) = get_light_characteristic_to_point(&light, &v3(0, 0, 0));
    assert_eq!(dir, v3(0, 0, 3 * SCALE));
    assert_eq!(intensity, v3(2 * SCALE, SCALE, 0));
    assert_eq!(dist.expect("distance"), fx(3 * SCALE));
}

#[test]
fn point_light_quadratic_attenuation() {
    // Attenuation (0,0,1) at distance 2: the denominator is r*r = 4, so the
    // intensity is divided by four.
    let light = Light {
        intensity: v3(4 * SCALE, 2 * SCALE, 0),
        ltype: LightType::Point {
            position: v3(0, 2 * SCALE, 0),
            attenuation: v3(0, 0, SCALE),
        },
    };
    let (_, intensity, dist) = get_light_characteristic_to_point(&light, &v3(0, 0, 0));
    assert_eq!(intensity, v3(SCALE, SCALE / 2, 0));
    assert_eq!(dist.expect("distance"), fx(2 * SCALE));
}
