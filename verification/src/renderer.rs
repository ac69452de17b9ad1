//! The renderer: nearest-hit search, shadow tests, illumination
//! accumulation, bounded recursive transparency, and the frame driver.
//!
//! Every executable function returns exactly the value of a
//! specification function of the scene, so a rendered color is a
//! mathematical function of the scene and the camera ray alone.

use crate::colors::{col_add_s, col_black_s, col_mul_s, col_scale_s, Color};
use crate::fixed::{fx_add_s, fx_pow_s, Fx};
use crate::lights::{light_color_at_s, Light};
use crate::primitives::{ray_from_to_s, Ray};
use crate::result::{DrawCanvasError, RaytracerError};
use crate::scene::{
    object_collision_s, object_color_s, object_normal_s, Scene, SceneObject,
};
use crate::vector::{fx_of, v3_distance_s, v3_dot_s, v3_normalize_s, v3_reflect_s, Vec3};
use vstd::prelude::*;

verus! {

/// Raw fixed-point distance at or below which a reported hit is taken
/// for the ray's own origin and discarded, never a valid collision.
pub const COLLISION_EPSILON_RAW: i64 = 1;

/// A sink the renderer hands finished pixels to, one draw per pixel.
pub trait DrawCanvas {
    /// Draw one pixel.  An error aborts the render.
    fn draw(&mut self, x: u32, y: u32, color: &Color) -> Result<(), DrawCanvasError>;
}

/// A sink that discards every pixel and never fails.
pub struct NoCanvas;

impl DrawCanvas for NoCanvas {
    fn draw(&mut self, _x: u32, _y: u32, _color: &Color) -> (r: Result<(), DrawCanvasError>)
        ensures
            r == Ok::<(), DrawCanvasError>(()),
    {
        Ok(())
    }
}

/// The size of the target canvas.
#[derive(Clone, Copy, Debug)]
pub struct RenderOptions {
    pub canvas_width: u32,
    pub canvas_height: u32,
}

/// One element of the camera's ray sequence: the target pixel and the
/// ray to trace for it.
#[derive(Clone, Copy, Debug)]
pub struct CameraRay {
    pub x: u32,
    pub y: u32,
    pub ray: Ray,
}

/// The nearest valid hit among the first `n` objects: the object index
/// and the collision point.  A hit at distance at most
/// `COLLISION_EPSILON_RAW` from the ray source is discarded; among the
/// rest, the first object at the strictly smallest distance wins.
pub open spec fn search_upto_s(objects: Seq<SceneObject>, ray: Ray, n: int) -> Option<(int, Vec3)>
    decreases n,
{
    if n <= 0 {
        None
    } else {
        let prev = search_upto_s(objects, ray, n - 1);
        match object_collision_s(objects[n - 1], ray) {
            None => prev,
            Some(point) => {
                let d = v3_distance_s(point, ray.source);
                if d <= COLLISION_EPSILON_RAW {
                    prev
                } else {
                    match prev {
                        None => Some((n - 1, point)),
                        Some(best) => if d < v3_distance_s(best.1, ray.source) {
                            Some((n - 1, point))
                        } else {
                            prev
                        },
                    }
                }
            },
        }
    }
}

/// The nearest valid hit of `ray` among all `objects`.
pub open spec fn search_collision_s(objects: Seq<SceneObject>, ray: Ray) -> Option<(int, Vec3)> {
    search_upto_s(objects, ray, objects.len() as int)
}

/// Whether this object blocks `ray` on the way to a target at raw
/// distance `light_distance`: it must be hit strictly between the
/// self-intersection threshold and the target.
pub open spec fn obstructs_s(object: SceneObject, ray: Ray, light_distance: int) -> bool {
    match object_collision_s(object, ray) {
        None => false,
        Some(point) => {
            let od = v3_distance_s(ray.source, point);
            COLLISION_EPSILON_RAW < od && od < light_distance
        },
    }
}

/// Whether any object blocks `ray` before it reaches `destination`.
pub open spec fn encounter_obstacle_s(objects: Seq<SceneObject>, ray: Ray, destination: Vec3) -> bool {
    exists|i: int|
        0 <= i < objects.len() && #[trigger] obstructs_s(
            objects[i],
            ray,
            v3_distance_s(ray.source, destination),
        )
}

/// The shadow ray from a surface point toward a light.
pub open spec fn light_ray_s(surface_point: Vec3, light: Light) -> Ray {
    ray_from_to_s(surface_point, light.source)
}

/// The accumulator after adding one light's diffuse and specular
/// contributions at a surface point with the given normal.
pub open spec fn light_accum_s(
    acc: Color,
    object: SceneObject,
    surface_point: Vec3,
    light: Light,
    camera_ray: Ray,
    normal: Vec3,
) -> Color {
    let light_direction = v3_normalize_s(light_ray_s(surface_point, light).direction);
    let light_color = light_color_at_s(light, surface_point);
    let ray_reflexion = v3_normalize_s(v3_reflect_s(camera_ray.direction, normal));
    let reflection_angle = v3_dot_s(light_direction, normal);
    let acc1 = if reflection_angle > 0 {
        col_add_s(
            acc,
            col_scale_s(
                col_mul_s(light_color, object_color_s(object, surface_point)),
                fx_of(reflection_angle),
            ),
        )
    } else {
        acc
    };
    match object.effects.phong {
        None => acc1,
        Some(phong) => {
            let specular_angle = v3_dot_s(light_direction, ray_reflexion);
            if specular_angle > 0 {
                col_add_s(
                    acc1,
                    col_scale_s(
                        col_scale_s(light_color, fx_of(fx_pow_s(specular_angle, phong.size as nat))),
                        phong.lum_coeff,
                    ),
                )
            } else {
                acc1
            }
        },
    }
}

/// The illumination gathered from the first `n` lights at a surface
/// point of `object`, starting from black.  An occluded light adds
/// nothing; an unoccluded light demands a surface normal, and `None`
/// reports that the normal does not exist.
pub open spec fn illumination_upto_s(
    object: SceneObject,
    surface_point: Vec3,
    lights: Seq<Light>,
    objects: Seq<SceneObject>,
    camera_ray: Ray,
    n: int,
) -> Option<Color>
    decreases n,
{
    if n <= 0 {
        Some(col_black_s())
    } else {
        match illumination_upto_s(object, surface_point, lights, objects, camera_ray, n - 1) {
            None => None,
            Some(acc) => {
                let light = lights[n - 1];
                let lray = light_ray_s(surface_point, light);
                if encounter_obstacle_s(objects, lray, light.source) {
                    Some(acc)
                } else {
                    match object_normal_s(object, surface_point) {
                        None => None,
                        Some(normal) => Some(
                            light_accum_s(acc, object, surface_point, light, camera_ray, normal),
                        ),
                    }
                }
            },
        }
    }
}

/// The illumination gathered from all lights at a surface point.
pub open spec fn illumination_s(
    object: SceneObject,
    surface_point: Vec3,
    lights: Seq<Light>,
    objects: Seq<SceneObject>,
    camera_ray: Ray,
) -> Option<Color> {
    illumination_upto_s(object, surface_point, lights, objects, camera_ray, lights.len() as int)
}

/// The color of one traced ray, or the index of an object whose normal
/// was needed and missing.
///
/// A negative depth is terminal black; a miss is the world color; a hit
/// gathers direct illumination, follows transparency by a second
/// nearest-hit search along the same ray and a recursive trace from the
/// found point at `depth - 1`, and finally adds the ambient light.
pub open spec fn launch_ray_s(camera_ray: Ray, scene: Scene, depth: int) -> Result<Color, int>
    decreases depth + 1,
{
    if depth < 0 {
        Ok(col_black_s())
    } else {
        match search_collision_s(scene.objects@, camera_ray) {
            None => Ok(scene.options.world_color),
            Some(hit) => {
                let object = scene.objects@[hit.0];
                match illumination_s(object, hit.1, scene.lights@, scene.objects@, camera_ray) {
                    None => Err(hit.0),
                    Some(direct) => {
                        let refracted = match object.effects.transparency {
                            None => Ok(direct),
                            Some(transparency) => match search_collision_s(
                                scene.objects@,
                                camera_ray,
                            ) {
                                None => Ok(direct),
                                Some(exit_hit) => match launch_ray_s(
                                    Ray { source: exit_hit.1, direction: camera_ray.direction },
                                    scene,
                                    depth - 1,
                                ) {
                                    Ok(continued) => Ok(
                                        col_add_s(direct, col_scale_s(continued, transparency.alpha)),
                                    ),
                                    Err(e) => Err(e),
                                },
                            },
                        };
                        match refracted {
                            Err(e) => Err(e),
                            Ok(total) => Ok(
                                match scene.options.ambient_light {
                                    None => total,
                                    Some(ambient) => col_add_s(
                                        total,
                                        col_mul_s(ambient, object_color_s(object, hit.1)),
                                    ),
                                },
                            ),
                        }
                    },
                }
            },
        }
    }
}

/// The recursion budget a scene asks for, as the trace depth.
pub open spec fn render_depth_s(scene: Scene) -> int {
    scene.options.maximum_light_recursion as i8 as int
}

/// Whether the executable trace result matches the specified one.
pub open spec fn launch_matches_s(r: Result<Color, RaytracerError>, s: Result<Color, int>) -> bool {
    match s {
        Ok(color) => r == Ok::<Color, RaytracerError>(color),
        Err(i) => r == Err::<Color, RaytracerError>(RaytracerError::NormalNotFound(i as usize)),
    }
}

/// A search result never lies at or below the self-intersection
/// threshold.
pub proof fn lemma_near_hits_suppressed(objects: Seq<SceneObject>, ray: Ray, n: int)
    ensures
        match search_upto_s(objects, ray, n) {
            None => true,
            Some(hit) => v3_distance_s(hit.1, ray.source) > COLLISION_EPSILON_RAW,
        },
    decreases n,
{
    if n > 0 {
        lemma_near_hits_suppressed(objects, ray, n - 1);
    }
}

/// A search result's object index lies within the object list.
pub proof fn lemma_search_index_in_range(objects: Seq<SceneObject>, ray: Ray, n: int)
    requires
        n <= objects.len(),
    ensures
        match search_upto_s(objects, ray, n) {
            None => true,
            Some(hit) => 0 <= hit.0 < objects.len() && object_collision_s(objects[hit.0], ray)
                == Some(hit.1),
        },
    decreases n,
{
    if n > 0 {
        lemma_search_index_in_range(objects, ray, n - 1);
    }
}

/// A ray that hits no object yields exactly the scene's world color,
/// at every non-negative depth.
pub proof fn lemma_miss_yields_world_color(camera_ray: Ray, scene: Scene, depth: int)
    requires
        depth >= 0,
        search_collision_s(scene.objects@, camera_ray) is None,
    ensures
        launch_ray_s(camera_ray, scene, depth) == Ok::<Color, int>(scene.options.world_color),
{
}

/// An occluded light contributes nothing: scanning it leaves the
/// illumination accumulated so far unchanged, whatever the object, the
/// point and the camera ray.
pub proof fn lemma_occluded_light_adds_nothing(
    object: SceneObject,
    surface_point: Vec3,
    lights: Seq<Light>,
    objects: Seq<SceneObject>,
    camera_ray: Ray,
    i: int,
)
    requires
        0 <= i < lights.len(),
        encounter_obstacle_s(objects, light_ray_s(surface_point, lights[i]), lights[i].source),
    ensures
        illumination_upto_s(object, surface_point, lights, objects, camera_ray, i + 1)
            == illumination_upto_s(object, surface_point, lights, objects, camera_ray, i),
{
}

/// With a single unoccluded light and no specular effect, the
/// illumination at a surface point is exactly the diffuse term: the
/// light color times the object color, scaled by the positive part of
/// the angle between the light direction and the surface normal.
pub proof fn lemma_single_light_gives_diffuse_term(
    object: SceneObject,
    surface_point: Vec3,
    lights: Seq<Light>,
    objects: Seq<SceneObject>,
    camera_ray: Ray,
)
    requires
        lights.len() == 1,
        object.effects.phong is None,
        !encounter_obstacle_s(objects, light_ray_s(surface_point, lights[0]), lights[0].source),
    ensures
        match object_normal_s(object, surface_point) {
            None => illumination_s(object, surface_point, lights, objects, camera_ray) is None,
            Some(normal) => {
                let light_direction = v3_normalize_s(
                    light_ray_s(surface_point, lights[0]).direction,
                );
                let angle = v3_dot_s(light_direction, normal);
                illumination_s(object, surface_point, lights, objects, camera_ray) == Some(
                    if angle > 0 {
                        col_scale_s(
                            col_mul_s(
                                light_color_at_s(lights[0], surface_point),
                                object_color_s(object, surface_point),
                            ),
                            fx_of(angle),
                        )
                    } else {
                        col_black_s()
                    },
                )
            },
        },
{
    assert(illumination_upto_s(object, surface_point, lights, objects, camera_ray, 0) == Some(
        col_black_s(),
    ));
    match object_normal_s(object, surface_point) {
        None => {},
        Some(normal) => {
            let light_direction = v3_normalize_s(light_ray_s(surface_point, lights[0]).direction);
            let angle = v3_dot_s(light_direction, normal);
            let diffuse = col_scale_s(
                col_mul_s(
                    light_color_at_s(lights[0], surface_point),
                    object_color_s(object, surface_point),
                ),
                fx_of(angle),
            );
            // Adding a term to the black accumulator yields the term
            // itself: each component is already within the raw range.
            assert(col_add_s(col_black_s(), diffuse) == diffuse);
        },
    }
}

/// A trace with an exhausted recursion budget is exactly black,
/// whatever the scene holds.
pub proof fn lemma_negative_depth_is_black(camera_ray: Ray, scene: Scene, depth: int)
    requires
        depth < 0,
    ensures
        launch_ray_s(camera_ray, scene, depth) == Ok::<Color, int>(col_black_s()),
{
}

/// Tracing is deterministic: the traced color is a function of the
/// ray, the scene and the depth alone, so rendering the same scene
/// twice yields identical colors.
pub proof fn lemma_trace_deterministic(
    ray1: Ray,
    scene1: Scene,
    depth1: int,
    ray2: Ray,
    scene2: Scene,
    depth2: int,
)
    requires
        ray1 == ray2,
        scene1.objects@ == scene2.objects@,
        scene1.lights@ == scene2.lights@,
        scene1.options.ambient_light == scene2.options.ambient_light,
        scene1.options.world_color == scene2.options.world_color,
        scene1.options.maximum_light_recursion == scene2.options.maximum_light_recursion,
        depth1 == depth2,
    ensures
        launch_ray_s(ray1, scene1, depth1) == launch_ray_s(ray2, scene2, depth2),
    decreases depth1 + 1,
{
    if depth1 >= 0 {
        match search_collision_s(scene1.objects@, ray1) {
            None => {},
            Some(hit) => {
                match scene1.objects@[hit.0].effects.transparency {
                    None => {},
                    Some(_) => {
                        match search_collision_s(scene1.objects@, ray1) {
                            None => {},
                            Some(exit_hit) => {
                                lemma_trace_deterministic(
                                    Ray { source: exit_hit.1, direction: ray1.direction },
                                    scene1,
                                    depth1 - 1,
                                    Ray { source: exit_hit.1, direction: ray2.direction },
                                    scene2,
                                    depth2 - 1,
                                );
                            },
                        }
                    },
                }
            },
        }
    }
}

/// A failed trace always names an object of the scene.
pub proof fn lemma_launch_err_in_range(camera_ray: Ray, scene: Scene, depth: int)
    ensures
        match launch_ray_s(camera_ray, scene, depth) {
            Err(i) => 0 <= i < scene.objects@.len(),
            Ok(_) => true,
        },
    decreases depth + 1,
{
    if depth >= 0 {
        lemma_search_index_in_range(scene.objects@, camera_ray, scene.objects@.len() as int);
        match search_collision_s(scene.objects@, camera_ray) {
            None => {},
            Some(hit) => {
                match scene.objects@[hit.0].effects.transparency {
                    None => {},
                    Some(_) => {
                        match search_collision_s(scene.objects@, camera_ray) {
                            None => {},
                            Some(exit_hit) => {
                                lemma_launch_err_in_range(
                                    Ray { source: exit_hit.1, direction: camera_ray.direction },
                                    scene,
                                    depth - 1,
                                );
                            },
                        }
                    },
                }
            },
        }
    }
}

/// Once the illumination scan has failed for want of a normal, it
/// stays failed however many further lights are scanned.
proof fn lemma_illumination_none_propagates(
    object: SceneObject,
    surface_point: Vec3,
    lights: Seq<Light>,
    objects: Seq<SceneObject>,
    camera_ray: Ray,
    k: int,
    n: int,
)
    requires
        k <= n,
        illumination_upto_s(object, surface_point, lights, objects, camera_ray, k) is None,
    ensures
        illumination_upto_s(object, surface_point, lights, objects, camera_ray, n) is None,
    decreases n - k,
{
    if k < n {
        lemma_illumination_none_propagates(
            object,
            surface_point,
            lights,
            objects,
            camera_ray,
            k,
            n - 1,
        );
    }
}

/// The nearest valid hit of `ray`, as the hit object's index in
/// `objects` and the collision point.
pub fn search_object_collision(ray: &Ray, objects: &Vec<SceneObject>) -> (r: Option<(usize, Vec3)>)
    ensures
        match (r, search_collision_s(objects@, *ray)) {
            (None, None) => true,
            (Some(hit), Some(hit_s)) => hit.0 as int == hit_s.0 && hit.1 == hit_s.1 && hit.0
                < objects@.len(),
            _ => false,
        },
        match r {
            None => true,
            Some(hit) => v3_distance_s(hit.1, ray.source) > COLLISION_EPSILON_RAW,
        },
{
    let mut best: Option<(usize, Vec3)> = None;
    let mut best_distance = Fx::zero();
    let mut i: usize = 0;
    while i < objects.len()
        invariant
            i <= objects@.len(),
            match (best, search_upto_s(objects@, *ray, i as int)) {
                (None, None) => true,
                (Some(hit), Some(hit_s)) => hit.0 as int == hit_s.0 && hit.1 == hit_s.1 && hit.0
                    < i && best_distance.raw as int == v3_distance_s(hit.1, ray.source)
                    && best_distance.raw > COLLISION_EPSILON_RAW,
                _ => false,
            },
        decreases objects@.len() - i,
    {
        let object_candidate = objects[i];
        match object_candidate.check_collision(ray) {
            None => {},
            Some(collision_point_candidate) => {
                let distance = collision_point_candidate.distance(ray.source);
                if distance.raw <= COLLISION_EPSILON_RAW {
                    // A hit this close to the source is the surface the
                    // ray starts on, not a collision.
                } else {
                    match best {
                        None => {
                            best = Some((i, collision_point_candidate));
                            best_distance = distance;
                        },
                        Some(_) => {
                            if distance.raw < best_distance.raw {
                                best = Some((i, collision_point_candidate));
                                best_distance = distance;
                            }
                        },
                    }
                }
            },
        }
        i = i + 1;
    }
    best
}

/// Whether any object blocks `ray` strictly between the
/// self-intersection threshold and the target `destination`.
pub fn ray_encounter_obstacle(ray: &Ray, destination: &Vec3, objects: &Vec<SceneObject>) -> (r:
    bool)
    ensures
        r == encounter_obstacle_s(objects@, *ray, *destination),
{
    let source = ray.source;
    let light_distance = Vec3::between_points(source, *destination).norm();
    let mut i: usize = 0;
    while i < objects.len()
        invariant
            i <= objects@.len(),
            source == ray.source,
            light_distance.raw as int == v3_distance_s(ray.source, *destination),
            forall|j: int|
                0 <= j < i ==> !obstructs_s(objects@[j], *ray, light_distance.raw as int),
        decreases objects@.len() - i,
    {
        let candidate_object = objects[i];
        match candidate_object.check_collision(ray) {
            None => {},
            Some(obstruction_point) => {
                let object_distance = Vec3::between_points(source, obstruction_point).norm();
                if object_distance.raw >= light_distance.raw {
                    // At the target or beyond it: not strictly between
                    // the point and the light.
                } else if object_distance.raw <= COLLISION_EPSILON_RAW {
                    // The surface the shadow ray starts on.
                } else {
                    assert(obstructs_s(objects@[i as int], *ray, light_distance.raw as int));
                    return true;
                }
            },
        }
        i = i + 1;
    }
    false
}

/// The illumination every light sheds on the object with index
/// `object_index` at `surface_point`: shadowed lights are skipped, the
/// rest add their diffuse and, for shiny objects, specular terms.
#[verifier::rlimit(50)]
pub fn illumination_from_lights(
    object_index: usize,
    surface_point: Vec3,
    lights: &Vec<Light>,
    objects: &Vec<SceneObject>,
    camera_ray: &Ray,
) -> (r: Result<Color, RaytracerError>)
    requires
        object_index < objects@.len(),
    ensures
        match illumination_s(
            objects@[object_index as int],
            surface_point,
            lights@,
            objects@,
            *camera_ray,
        ) {
            Some(color) => r == Ok::<Color, RaytracerError>(color),
            None => r == Err::<Color, RaytracerError>(RaytracerError::NormalNotFound(object_index)),
        },
{
    let object = objects[object_index];
    let ghost object_s = objects@[object_index as int];
    let mut total_color = Color::black();
    let mut i: usize = 0;
    while i < lights.len()
        invariant
            i <= lights@.len(),
            object == objects@[object_index as int],
            illumination_upto_s(object, surface_point, lights@, objects@, *camera_ray, i as int)
                == Some(total_color),
        decreases lights@.len() - i,
    {
        let current_light = lights[i];
        let light_ray = Ray::ray_from_to(surface_point, current_light.source());

        // A light behind an obstacle sheds nothing on this point.
        if ray_encounter_obstacle(&light_ray, &current_light.source, objects) {
            i = i + 1;
            continue;
        }

        let surface_normal = match object.normal_at(surface_point) {
            Some(normal) => normal,
            None => {
                proof {
                    lemma_illumination_none_propagates(
                        object,
                        surface_point,
                        lights@,
                        objects@,
                        *camera_ray,
                        i + 1,
                        lights@.len() as int,
                    );
                }
                return Err(RaytracerError::NormalNotFound(object_index));
            },
        };
        let light_direction = light_ray.direction.normalize();
        let light_color = current_light.light_color_at(surface_point);
        let ray_reflexion = camera_ray.direction.reflect(surface_normal).normalize();

        // Diffuse reflection.
        let reflection_angle = light_direction.dot_product(surface_normal);
        if reflection_angle.raw > 0 {
            total_color = total_color.add(
                light_color.mul(object.color_at(surface_point)).scale(reflection_angle),
            );
        }

        // Specular highlight.
        match object.effects.phong {
            None => {},
            Some(phong) => {
                let specular_angle = light_direction.dot_product(ray_reflexion);
                if specular_angle.raw > 0 {
                    total_color = total_color.add(
                        light_color.scale(specular_angle.powi(phong.size)).scale(phong.lum_coeff),
                    );
                }
            },
        }
        i = i + 1;
    }
    Ok(total_color)
}

/// Trace one camera ray through the scene with the given recursion
/// budget.
pub fn launch_ray(camera_ray: &Ray, scene: &Scene, depth: i8) -> (r: Result<Color, RaytracerError>)
    ensures
        launch_matches_s(r, launch_ray_s(*camera_ray, *scene, depth as int)),
        depth < 0 ==> r == Ok::<Color, RaytracerError>(col_black_s()),
    decreases depth as int + 1,
{
    if depth < 0 {
        return Ok(Color::black());
    }

    // Find the nearest object this ray hits, if any.
    let (object_index, collision_point) = match search_object_collision(camera_ray, &scene.objects) {
        Some(hit) => hit,
        None => {
            return Ok(scene.options.world_color);
        },
    };
    let object = scene.objects[object_index];

    // Direct illumination from the lights.
    let mut total_color = match illumination_from_lights(
        object_index,
        collision_point,
        &scene.lights,
        &scene.objects,
        camera_ray,
    ) {
        Ok(color) => color,
        Err(e) => {
            return Err(e);
        },
    };

    // Transparency: continue the ray from the far side of the object.
    match object.effects.transparency {
        None => {},
        Some(transparency) => {
            match search_object_collision(camera_ray, &scene.objects) {
                None => {},
                Some(exit_hit) => {
                    let new_ray = Ray { source: exit_hit.1, direction: camera_ray.direction };
                    match launch_ray(&new_ray, scene, depth - 1) {
                        Ok(continued) => {
                            total_color = total_color.add(continued.scale(transparency.alpha));
                        },
                        Err(e) => {
                            return Err(e);
                        },
                    }
                },
            }
        },
    }

    // Ambient light.
    match scene.options.ambient_light {
        None => {},
        Some(ambient_light) => {
            total_color = total_color.add(ambient_light.mul(object.color_at(collision_point)));
        },
    }

    Ok(total_color)
}

/// Render every camera ray and hand the finished pixels to the canvas.
///
/// Fails up front with `NoLight` when the scene has no light; aborts
/// with the first tracing error or the first canvas failure.
pub fn render<C: DrawCanvas>(
    scene: &Scene,
    camera_rays: &Vec<CameraRay>,
    canvas: &mut C,
    options: &RenderOptions,
) -> (r: Result<(), RaytracerError>)
    requires
        forall|i: int|
            0 <= i < camera_rays@.len() ==> #[trigger] camera_rays@[i].y <= options.canvas_height,
    ensures
        (scene.lights@.len() == 0) <==> (r == Err::<(), RaytracerError>(RaytracerError::NoLight)),
        scene.lights@.len() > 0 && camera_rays@.len() == 0 ==> r == Ok::<(), RaytracerError>(()),
        r is Ok ==> forall|i: int|
            0 <= i < camera_rays@.len() ==> (#[trigger] launch_ray_s(
                camera_rays@[i].ray,
                *scene,
                render_depth_s(*scene),
            )) is Ok,
        match r {
            Err(RaytracerError::NormalNotFound(k)) => exists|i: int|
                0 <= i < camera_rays@.len() && #[trigger] launch_ray_s(
                    camera_rays@[i].ray,
                    *scene,
                    render_depth_s(*scene),
                ) == Err::<Color, int>(k as int),
            _ => true,
        },
{
    if scene.lights.len() == 0 {
        return Err(RaytracerError::NoLight);
    }
    let depth = #[verifier::truncate] (scene.options.maximum_light_recursion as i8);
    let mut k: usize = 0;
    while k < camera_rays.len()
        invariant
            k <= camera_rays@.len(),
            scene.lights@.len() > 0,
            depth as int == render_depth_s(*scene),
            forall|i: int|
                0 <= i < camera_rays@.len() ==> #[trigger] camera_rays@[i].y
                    <= options.canvas_height,
            forall|i: int|
                0 <= i < k ==> (#[trigger] launch_ray_s(
                    camera_rays@[i].ray,
                    *scene,
                    render_depth_s(*scene),
                )) is Ok,
        decreases camera_rays@.len() - k,
    {
        let camera_ray = camera_rays[k];
        proof {
            lemma_launch_err_in_range(camera_ray.ray, *scene, depth as int);
        }
        let color = match launch_ray(&camera_ray.ray, scene, depth) {
            Ok(color) => color,
            Err(e) => {
                let n_objects = scene.objects.len();
                proof {
                    // The spec index is in range, so casting it through
                    // usize and back is the identity, and the ray of
                    // pixel k is the witness the postcondition asks for.
                    let s = launch_ray_s(camera_ray.ray, *scene, depth as int);
                    match s {
                        Ok(_) => {
                            assert(false);
                        },
                        Err(hit_index) => {
                            assert(0 <= hit_index < n_objects);
                            assert(launch_ray_s(
                                camera_rays@[k as int].ray,
                                *scene,
                                render_depth_s(*scene),
                            ) == Err::<Color, int>((hit_index as usize) as int));
                        },
                    }
                }
                return Err(e);
            },
        };
        match canvas.draw(camera_ray.x, options.canvas_height - camera_ray.y, &color) {
            Ok(_) => {},
            Err(e) => {
                return Err(RaytracerError::CanvasWriteFailure(e.0));
            },
        }
        k = k + 1;
    }
    Ok(())
}

} // verus!
