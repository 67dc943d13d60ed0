//! The immutable scene description the renderer reads: camera, primitives
//! with their materials, legacy point/directed lights, image dimensions and
//! sampling parameters.
//!
//! A scene is built once (outside the library, from whatever description
//! format) and only read during rendering.

use crate::fx::{add_s, fx_add, fx_mul, mul_s, Fx};
use crate::geometry::Shape;
use crate::quat::Quat;
use crate::vec3::{v3_norm, v3_norm_s, v3_sdiv, v3_sdiv_s, v3_sub, v3_sub_s, V3s, Vec3};
use vstd::prelude::*;

verus! {

/// The camera: position, an orthonormal basis, and the tangents of the half
/// fields of view (stored pre-computed, since the renderer only ever uses
/// the tangents).
#[derive(Clone, Copy, Debug)]
pub struct Camera {
    pub position: Vec3,
    pub right_axis: Vec3,
    pub up_axis: Vec3,
    pub forward_axis: Vec3,
    pub tan_half_fov_x: Fx,
    pub tan_half_fov_y: Fx,
}

/// A primitive's surface model.
#[derive(Clone, Copy, Debug)]
#[allow(non_camel_case_types)]
pub enum Material {
    METALLIC,
    DIELECTRIC { ior: Fx },
    DIFFUSE,
}

/// One geometric object of the scene: a shape in its local frame, placed in
/// the world by a translation and a unit-quaternion rotation, with its
/// reflectance color, emitted radiance and material.
#[derive(Clone, Copy, Debug)]
pub struct Primitive {
    pub shape: Shape,
    pub color: Vec3,
    pub position: Vec3,
    pub rotation: Quat,
    pub material: Material,
    pub emission: Vec3,
}

/// The kind of a legacy analytic light.
#[derive(Clone, Copy, Debug)]
pub enum LightType {
    Point { position: Vec3, attenuation: Vec3 },
    Directed { direction: Vec3 },
}

/// A legacy analytic light (kept in the scene description; the path tracer
/// itself gathers light only from emissive primitives).
#[derive(Clone, Copy, Debug)]
pub struct Light {
    pub intensity: Vec3,
    pub ltype: LightType,
}

/// The whole immutable scene.
#[derive(Clone, Debug)]
pub struct Scene {
    pub width: u32,
    pub height: u32,
    pub background_color: Vec3,
    pub camera: Camera,
    pub primitives: Vec<Primitive>,
    pub ray_depth: u32,
    pub ambient_light: Vec3,
    pub lights: Vec<Light>,
    pub samples: u32,
}

/// Meaning of the attenuation denominator `a.x + a.y*r + a.z*r*r` of a point
/// light at distance `r`.
pub open spec fn attenuation_s(a: V3s, r: int) -> int {
    add_s(add_s(a.x, mul_s(a.y, r)), mul_s(mul_s(a.z, r), r))
}

/// For a light and a point: the direction toward the light, the intensity
/// arriving at the point, and the distance to the light where one exists
/// (a directed light has none).
pub fn get_light_characteristic_to_point(light: &Light, point: &Vec3) -> (r: (
    Vec3,
    Vec3,
    Option<Fx>,
))
    ensures
        match light.ltype {
            LightType::Point { position, attenuation } => {
                let dir = v3_sub_s(position.s(), point.s());
                let dist = v3_norm_s(dir);
                &&& r.0.s() == dir
                &&& r.1.s() == v3_sdiv_s(light.intensity.s(), attenuation_s(attenuation.s(), dist))
                &&& r.2 matches Some(d) && d.v as int == dist
            },
            LightType::Directed { direction } => {
                &&& r.0.s() == direction.s()
                &&& r.1.s() == light.intensity.s()
                &&& r.2 is None
            },
        },
{
    match light.ltype {
        LightType::Point { position, attenuation } => {
            let direction_to_light = v3_sub(position, *point);
            let dist = v3_norm(direction_to_light);
            let denom = fx_add(
                fx_add(attenuation.x, fx_mul(attenuation.y, dist)),
                fx_mul(fx_mul(attenuation.z, dist), dist),
            );
            (direction_to_light, v3_sdiv(light.intensity, denom), Some(dist))
        },
        LightType::Directed { direction } => (direction, light.intensity, None),
    }
}

} // verus!
