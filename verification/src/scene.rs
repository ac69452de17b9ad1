//! Scene objects: shapes, textures, surface effects, and the scene
//! itself.
//!
//! Shapes and textures form a small closed set of variants, so the
//! renderer can traverse a mixed object list with ordinary matching.

use crate::colors::Color;
use crate::fixed::{
    fx_add_s, fx_mul_s, fx_neg_s, fx_sqrt_s, fx_sub_s, fx_div_s, Fx,
};
use crate::lights::Light;
use crate::primitives::Ray;
use crate::vector::{fx_of, v3_add_s, v3_normalize_s, v3_scale_s, v3_sub_s, v3_dot_s, v3_zero_s, Vec3};
use vstd::prelude::*;

verus! {

/// A sphere, given by its center and radius.
#[derive(Clone, Copy, Debug, PartialEq, Eq, Structural)]
pub struct Sphere {
    pub center: Vec3,
    pub radius: Fx,
}

/// The geometric shapes an object can take.
#[derive(Clone, Copy, Debug, PartialEq, Eq, Structural)]
pub enum Shape {
    Sphere(Sphere),
}

/// The surface textures an object can carry.
#[derive(Clone, Copy, Debug, PartialEq, Eq, Structural)]
pub enum Texture {
    /// The same color everywhere on the surface.
    Plain(Color),
}

/// A specular highlight: shininess exponent and luminosity coefficient.
#[derive(Clone, Copy, Debug, PartialEq, Eq, Structural)]
pub struct Phong {
    pub size: u32,
    pub lum_coeff: Fx,
}

/// Straight-through transparency: the continuation color is scaled by
/// `alpha` and added to the surface color.
#[derive(Clone, Copy, Debug, PartialEq, Eq, Structural)]
pub struct Transparency {
    pub alpha: Fx,
}

/// The optional surface effects of an object.
#[derive(Clone, Copy, Debug, PartialEq, Eq, Structural)]
pub struct Effects {
    pub phong: Option<Phong>,
    pub transparency: Option<Transparency>,
}

/// An object of the scene: a shape, a texture and surface effects.
#[derive(Clone, Copy, Debug, PartialEq, Eq, Structural)]
pub struct SceneObject {
    pub shape: Shape,
    pub texture: Texture,
    pub effects: Effects,
}

/// The render options carried by a scene.
#[derive(Clone, Copy, Debug)]
pub struct SceneOptions {
    /// Uniform fill light multiplied into every hit surface, if any.
    pub ambient_light: Option<Color>,
    /// Color returned for rays that hit no object.
    pub world_color: Color,
    /// Recursion budget for rays continued through transparent objects.
    pub maximum_light_recursion: u8,
}

/// A scene: objects, lights and options, immutable during a render.
#[derive(Debug)]
pub struct Scene {
    pub objects: Vec<SceneObject>,
    pub lights: Vec<Light>,
    pub options: SceneOptions,
}

/// The point where the ray first meets the sphere, if any.
///
/// The quadratic for `|source + t * direction - center| = radius` is
/// solved in fixed-point arithmetic; of its two roots the smaller
/// non-negative one is kept.  A ray with a degenerate (zero dot square)
/// direction meets nothing.
pub open spec fn sphere_collision_s(sphere: Sphere, ray: Ray) -> Option<Vec3> {
    let oc = v3_sub_s(ray.source, sphere.center);
    let a = v3_dot_s(ray.direction, ray.direction);
    let hb = v3_dot_s(oc, ray.direction);
    let c = fx_sub_s(v3_dot_s(oc, oc), fx_mul_s(sphere.radius.raw as int, sphere.radius.raw as int));
    let disc = fx_sub_s(fx_mul_s(hb, hb), fx_mul_s(a, c));
    if a == 0 || disc < 0 {
        None
    } else {
        let sq = fx_sqrt_s(disc);
        let t1 = fx_div_s(fx_sub_s(fx_neg_s(hb), sq), a);
        let t = if t1 >= 0 {
            t1
        } else {
            fx_div_s(fx_add_s(fx_neg_s(hb), sq), a)
        };
        if t < 0 {
            None
        } else {
            Some(v3_add_s(ray.source, v3_scale_s(ray.direction, fx_of(t))))
        }
    }
}

/// The point where the ray first meets the object, if any.
pub open spec fn object_collision_s(object: SceneObject, ray: Ray) -> Option<Vec3> {
    match object.shape {
        Shape::Sphere(sphere) => sphere_collision_s(sphere, ray),
    }
}

/// The outward surface normal of the object at `point`, if one exists.
/// A point coinciding with a sphere's center has no normal.
pub open spec fn object_normal_s(object: SceneObject, point: Vec3) -> Option<Vec3> {
    match object.shape {
        Shape::Sphere(sphere) => {
            let v = v3_sub_s(point, sphere.center);
            if v == v3_zero_s() {
                None
            } else {
                Some(v3_normalize_s(v))
            }
        },
    }
}

/// The texture color of the object at `point`.
pub open spec fn object_color_s(object: SceneObject, point: Vec3) -> Color {
    match object.texture {
        Texture::Plain(color) => color,
    }
}

impl SceneObject {
    /// An object with the given shape, texture and effects.
    pub fn new(shape: Shape, texture: Texture, effects: Effects) -> (r: SceneObject)
        ensures
            r == (SceneObject { shape, texture, effects }),
    {
        SceneObject { shape, texture, effects }
    }

    /// The point where `ray` first meets this object, if any.
    pub fn check_collision(&self, ray: &Ray) -> (r: Option<Vec3>)
        ensures
            r == object_collision_s(*self, *ray),
    {
        match self.shape {
            Shape::Sphere(sphere) => {
                let oc = ray.source.sub(sphere.center);
                let a = ray.direction.dot_product(ray.direction);
                let hb = oc.dot_product(ray.direction);
                let c = oc.dot_product(oc).sub(sphere.radius.mul(sphere.radius));
                let disc = hb.mul(hb).sub(a.mul(c));
                if a.raw == 0 || disc.raw < 0 {
                    None
                } else {
                    let sq = disc.sqrt();
                    let t1 = hb.neg().sub(sq).div(a);
                    let t = if t1.raw >= 0 {
                        t1
                    } else {
                        hb.neg().add(sq).div(a)
                    };
                    if t.raw < 0 {
                        None
                    } else {
                        Some(ray.source.add(ray.direction.scale(t)))
                    }
                }
            },
        }
    }

    /// The outward surface normal at `point`, if one exists.
    pub fn normal_at(&self, point: Vec3) -> (r: Option<Vec3>)
        ensures
            r == object_normal_s(*self, point),
    {
        match self.shape {
            Shape::Sphere(sphere) => {
                let v = point.sub(sphere.center);
                if v.x.raw == 0 && v.y.raw == 0 && v.z.raw == 0 {
                    None
                } else {
                    Some(v.normalize())
                }
            },
        }
    }

    /// The texture color at `point`.
    pub fn color_at(&self, point: Vec3) -> (r: Color)
        ensures
            r == object_color_s(*self, point),
    {
        match self.texture {
            Texture::Plain(color) => color,
        }
    }

    /// The surface effects of this object.
    pub fn effects(&self) -> (r: &Effects)
        ensures
            r == self.effects,
    {
        &self.effects
    }
}

} // verus!
