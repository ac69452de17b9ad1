use raytracer::colors::Color;
use raytracer::fixed::{Fx, FX_SCALE};
use raytracer::lights::Light;
use raytracer::primitives::Ray;
use raytracer::renderer::{
    launch_ray, ray_encounter_obstacle, render, search_object_collision, CameraRay, DrawCanvas,
    NoCanvas, RenderOptions,
};
use raytracer::result::{DrawCanvasError, RaytracerError};
use raytracer::scene::{Effects, Scene, SceneObject, SceneOptions, Shape, Sphere, Texture};
use raytracer::vector::Vec3;

fn fx(v: f64) -> Fx {
    Fx::from_raw((v * (FX_SCALE as f64)) as i64)
}

fn v3(x: f64, y: f64, z: f64) -> Vec3 {
    Vec3::new(fx(x), fx(y), fx(z))
}

fn col(r: f64, g: f64, b: f64) -> Color {
    Color::new(fx(r), fx(g), fx(b))
}

fn to_f64(v: Fx) -> f64 {
    v.raw as f64 / FX_SCALE as f64
}

fn plain_sphere(center: Vec3, radius: Fx, color: Color) -> SceneObject {
    SceneObject::new(
        Shape::Sphere(Sphere { center, radius }),
        Texture::Plain(color),
        Effects { phong: None, transparency: None },
    )
}

fn simple_scene() -> Scene {
    Scene {
        objects: vec![plain_sphere(v3(0.0, 0.0, 0.0), fx(5.0), col(1.0, 1.0, 1.0))],
        lights: vec![Light::new(v3(0.0, 100.0, 0.0), col(0.8, 0.8, 0.8))],
        options: SceneOptions {
            ambient_light: None,
            world_color: col(0.05, 0.05, 0.2),
            maximum_light_recursion: 3,
        },
    }
}

struct FailingCanvas;

impl DrawCanvas for FailingCanvas {
    fn draw(&mut self, _x: u32, _y: u32, _color: &Color) -> Result<(), DrawCanvasError> {
        Err(DrawCanvasError(String::from("sink refused the pixel")))
    }
}

#[test]
fn missed_ray_returns_world_color() {
    let scene = simple_scene();
    // A ray pointing away from the only sphere.
    let ray = Ray::new(v3(0.0, 20.0, 0.0), v3(0.0, 1.0, 0.0));
    let color = launch_ray(&ray, &scene, 3).unwrap();
    let world = scene.options.world_color;
    assert_eq!(color.red.raw, world.red.raw);
    assert_eq!(color.green.raw, world.green.raw);
    assert_eq!(color.blue.raw, world.blue.raw);
}

#[test]
fn negative_depth_is_black_regardless_of_scene() {
    let scene = simple_scene();
    // A ray that would hit the sphere head on.
    let ray = Ray::new(v3(0.0, 20.0, 0.0), v3(0.0, -1.0, 0.0));
    let color = launch_ray(&ray, &scene, -1).unwrap();
    assert_eq!(color.red.raw, 0);
    assert_eq!(color.green.raw, 0);
    assert_eq!(color.blue.raw, 0);
}

#[test]
fn directly_facing_point_gets_full_diffuse_term() {
    let scene = simple_scene();
    // Straight down onto the top of the sphere: the hit point
    // (0, 5, 0) is the point most directly facing the light at
    // (0, 100, 0), so L . N is exactly one.
    let ray = Ray::new(v3(0.0, 20.0, 0.0), v3(0.0, -1.0, 0.0));
    let color = launch_ray(&ray, &scene, 3).unwrap();
    let light_color = scene.lights[0].color;
    let object_color = match scene.objects[0].texture {
        Texture::Plain(c) => c,
    };
    // Expected: max(0, L . N) * light_color * object_color with
    // L . N == 1, computed in floating point from the stored values.
    let expected_red = 1.0 * to_f64(light_color.red) * to_f64(object_color.red);
    assert!((to_f64(color.red) - expected_red).abs() < 1e-9);
    let expected_green = 1.0 * to_f64(light_color.green) * to_f64(object_color.green);
    assert!((to_f64(color.green) - expected_green).abs() < 1e-9);
    let expected_blue = 1.0 * to_f64(light_color.blue) * to_f64(object_color.blue);
    assert!((to_f64(color.blue) - expected_blue).abs() < 1e-9);
}

#[test]
fn occluder_between_point_and_light_zeroes_contribution() {
    let mut scene = simple_scene();
    let ray = Ray::new(v3(0.0, 20.0, 0.0), v3(0.0, -1.0, 0.0));

    // Without the occluder the hit point is brightly lit.
    let lit = launch_ray(&ray, &scene, 3).unwrap();
    assert!(lit.red.raw > 0);

    // An opaque sphere strictly between (0, 5, 0) and the light.
    scene.objects.push(plain_sphere(v3(0.0, 50.0, 0.0), fx(5.0), col(1.0, 1.0, 1.0)));
    let shadowed = launch_ray(&ray, &scene, 3).unwrap();
    assert_eq!(shadowed.red.raw, 0);
    assert_eq!(shadowed.green.raw, 0);
    assert_eq!(shadowed.blue.raw, 0);
}

#[test]
fn shadow_test_sees_the_occluder() {
    let scene = simple_scene();
    let surface_point = v3(0.0, 5.0, 0.0);
    let light_position = v3(0.0, 100.0, 0.0);
    let shadow_ray = Ray::ray_from_to(surface_point, light_position);

    // The object list without an occluder: the light is reachable.
    assert!(!ray_encounter_obstacle(&shadow_ray, &light_position, &scene.objects));

    // With an occluder between the point and the light it is not.
    let mut objects = scene.objects.clone();
    objects.push(plain_sphere(v3(0.0, 50.0, 0.0), fx(5.0), col(1.0, 1.0, 1.0)));
    assert!(ray_encounter_obstacle(&shadow_ray, &light_position, &objects));

    // An object beyond the light does not occlude it.
    let mut objects_behind = scene.objects.clone();
    objects_behind.push(plain_sphere(v3(0.0, 200.0, 0.0), fx(5.0), col(1.0, 1.0, 1.0)));
    assert!(!ray_encounter_obstacle(&shadow_ray, &light_position, &objects_behind));
}

#[test]
fn tangential_graze_is_not_a_collision() {
    // The ray starts exactly on the sphere's surface and runs
    // tangentially: the reported hit lies at distance zero from the
    // source and must be suppressed.
    let objects = vec![plain_sphere(v3(0.0, 0.0, 10.0), fx(5.0), col(1.0, 1.0, 1.0))];
    let ray = Ray::new(v3(0.0, 5.0, 10.0), v3(1.0, 0.0, 0.0));
    assert!(search_object_collision(&ray, &objects).is_none());

    let scene = Scene {
        objects,
        lights: vec![Light::new(v3(0.0, 100.0, 0.0), col(0.8, 0.8, 0.8))],
        options: SceneOptions {
            ambient_light: None,
            world_color: col(0.05, 0.05, 0.2),
            maximum_light_recursion: 3,
        },
    };
    let color = launch_ray(&ray, &scene, 3).unwrap();
    assert_eq!(color.red.raw, scene.options.world_color.red.raw);
}

#[test]
fn nearest_object_wins() {
    let near = plain_sphere(v3(0.0, 0.0, 10.0), fx(2.0), col(1.0, 0.0, 0.0));
    let far = plain_sphere(v3(0.0, 0.0, 30.0), fx(2.0), col(0.0, 1.0, 0.0));
    let objects = vec![far, near];
    let ray = Ray::new(v3(0.0, 0.0, 0.0), v3(0.0, 0.0, 1.0));
    let (index, point) = search_object_collision(&ray, &objects).unwrap();
    assert_eq!(index, 1);
    assert!((to_f64(point.z) - 8.0).abs() < 1e-6);
}

#[test]
fn empty_scene_has_no_collision() {
    let objects: Vec<SceneObject> = Vec::new();
    let ray = Ray::new(v3(0.0, 0.0, 0.0), v3(0.0, 0.0, 1.0));
    assert!(search_object_collision(&ray, &objects).is_none());
}

#[test]
fn scene_without_light_is_refused() {
    let scene = Scene {
        objects: vec![plain_sphere(v3(0.0, 0.0, 0.0), fx(5.0), col(1.0, 1.0, 1.0))],
        lights: Vec::new(),
        options: SceneOptions {
            ambient_light: None,
            world_color: col(0.0, 0.0, 0.0),
            maximum_light_recursion: 3,
        },
    };
    let rays = vec![CameraRay { x: 0, y: 0, ray: Ray::new(v3(0.0, 0.0, 0.0), v3(0.0, 0.0, 1.0)) }];
    let options = RenderOptions { canvas_width: 1, canvas_height: 1 };
    let mut canvas = NoCanvas;
    let result = render(&scene, &rays, &mut canvas, &options);
    assert!(matches!(result, Err(RaytracerError::NoLight)));
}

#[test]
fn degenerate_geometry_reports_missing_normal() {
    // A sphere of radius zero is hit exactly at its center, where no
    // surface normal exists.
    let scene = Scene {
        objects: vec![plain_sphere(v3(0.0, 0.0, 5.0), fx(0.0), col(1.0, 1.0, 1.0))],
        lights: vec![Light::new(v3(0.0, 100.0, 0.0), col(0.8, 0.8, 0.8))],
        options: SceneOptions {
            ambient_light: None,
            world_color: col(0.0, 0.0, 0.0),
            maximum_light_recursion: 3,
        },
    };
    let ray = Ray::new(v3(0.0, 0.0, 0.0), v3(0.0, 0.0, 1.0));
    let result = launch_ray(&ray, &scene, 3);
    assert!(matches!(result, Err(RaytracerError::NormalNotFound(0))));
}

#[test]
fn canvas_failure_aborts_the_render() {
    let scene = simple_scene();
    let rays = vec![CameraRay {
        x: 0,
        y: 0,
        ray: Ray::new(v3(0.0, 20.0, 0.0), v3(0.0, 1.0, 0.0)),
    }];
    let options = RenderOptions { canvas_width: 1, canvas_height: 1 };
    let mut canvas = FailingCanvas;
    let result = render(&scene, &rays, &mut canvas, &options);
    assert!(matches!(result, Err(RaytracerError::CanvasWriteFailure(_))));
}

#[test]
fn light_behind_the_surface_leaves_only_ambient_light() {
    // The light sits below the sphere while the camera looks at the
    // top: the diffuse angle is negative, so only the ambient term
    // remains.
    let ambient = col(0.1, 0.1, 0.1);
    let scene = Scene {
        objects: vec![plain_sphere(v3(0.0, 0.0, 0.0), fx(5.0), col(1.0, 1.0, 1.0))],
        lights: vec![Light::new(v3(0.0, -100.0, 0.0), col(0.8, 0.8, 0.8))],
        options: SceneOptions {
            ambient_light: Some(ambient),
            world_color: col(0.0, 0.0, 0.0),
            maximum_light_recursion: 3,
        },
    };
    let ray = Ray::new(v3(0.0, 20.0, 0.0), v3(0.0, -1.0, 0.0));
    let color = launch_ray(&ray, &scene, 3).unwrap();
    // ambient * object_color with object_color == 1 is the ambient
    // value itself, exactly.
    assert_eq!(color.red.raw, ambient.red.raw);
    assert_eq!(color.green.raw, ambient.green.raw);
    assert_eq!(color.blue.raw, ambient.blue.raw);
}

#[test]
fn fully_transparent_object_adds_nothing_when_alpha_is_zero() {
    let mut scene = simple_scene();
    let opaque = launch_ray(&Ray::new(v3(0.0, 20.0, 0.0), v3(0.0, -1.0, 0.0)), &scene, 3).unwrap();

    scene.objects[0] = SceneObject::new(
        scene.objects[0].shape,
        scene.objects[0].texture,
        Effects {
            phong: None,
            transparency: Some(raytracer::scene::Transparency { alpha: fx(0.0) }),
        },
    );
    let glassy = launch_ray(&Ray::new(v3(0.0, 20.0, 0.0), v3(0.0, -1.0, 0.0)), &scene, 3).unwrap();
    assert_eq!(opaque.red.raw, glassy.red.raw);
    assert_eq!(opaque.green.raw, glassy.green.raw);
    assert_eq!(opaque.blue.raw, glassy.blue.raw);
}

#[test]
fn phong_highlight_brightens_an_aligned_view() {
    // Light straight above; the camera ray comes down onto the top of
    // the sphere, so its reflection points back at the light and the
    // specular term is at its maximum.
    let mut scene = simple_scene();
    let without_phong =
        launch_ray(&Ray::new(v3(0.0, 20.0, 0.0), v3(0.0, -1.0, 0.0)), &scene, 3).unwrap();
    scene.objects[0] = SceneObject::new(
        scene.objects[0].shape,
        scene.objects[0].texture,
        Effects {
            phong: Some(raytracer::scene::Phong { size: 4, lum_coeff: fx(0.5) }),
            transparency: None,
        },
    );
    let with_phong =
        launch_ray(&Ray::new(v3(0.0, 20.0, 0.0), v3(0.0, -1.0, 0.0)), &scene, 3).unwrap();
    // specular = light * (L . R)^4 * 0.5 with L . R == 1: half the
    // light color on top of the diffuse term.
    let expected = to_f64(without_phong.red) + 0.8 * 0.5;
    assert!((to_f64(with_phong.red) - expected).abs() < 1e-6);
}

#[test]
fn first_object_wins_a_distance_tie() {
    // Two identical spheres: the strictly-smaller-distance rule keeps
    // the first one encountered.
    let sphere = plain_sphere(v3(0.0, 0.0, 10.0), fx(2.0), col(1.0, 0.0, 0.0));
    let objects = vec![sphere, sphere];
    let ray = Ray::new(v3(0.0, 0.0, 0.0), v3(0.0, 0.0, 1.0));
    let (index, _) = search_object_collision(&ray, &objects).unwrap();
    assert_eq!(index, 0);
}

#[test]
fn attenuated_light_fades_with_the_squared_distance() {
    let color = col(0.8, 0.8, 0.8);
    let light = Light::new_attenuated(v3(0.0, 0.0, 0.0), color, fx(1.0));
    // At distance 2 the color is scaled by 1 / 4.
    let at_two = light.light_color_at(v3(0.0, 2.0, 0.0));
    let quarter = (color.red.raw as i128 * fx(0.25).raw as i128 / FX_SCALE as i128) as i64;
    assert_eq!(at_two.red.raw, quarter);
    // At distance 1 the color is unchanged.
    let at_one = light.light_color_at(v3(1.0, 0.0, 0.0));
    assert_eq!(at_one.red.raw, color.red.raw);
    // A uniform light never fades.
    let uniform = Light::new(v3(0.0, 0.0, 0.0), color);
    let far = uniform.light_color_at(v3(0.0, 1000.0, 0.0));
    assert_eq!(far.red.raw, color.red.raw);
}

#[test]
fn hit_exactly_at_the_light_distance_does_not_occlude() {
    // The shadow ray from the origin to a light at (0, 10, 0) meets
    // this sphere at (0, 10, 0) exactly: an obstruction must lie
    // strictly between the point and the light, so none is seen.
    let at_light = vec![plain_sphere(v3(0.0, 12.0, 0.0), fx(2.0), col(1.0, 1.0, 1.0))];
    let source = v3(0.0, 0.0, 0.0);
    let light_position = v3(0.0, 10.0, 0.0);
    let shadow_ray = Ray::ray_from_to(source, light_position);
    assert!(!ray_encounter_obstacle(&shadow_ray, &light_position, &at_light));

    // Pulled a little nearer, the same sphere does occlude.
    let nearer = vec![plain_sphere(v3(0.0, 11.5, 0.0), fx(2.0), col(1.0, 1.0, 1.0))];
    assert!(ray_encounter_obstacle(&shadow_ray, &light_position, &nearer));
}
