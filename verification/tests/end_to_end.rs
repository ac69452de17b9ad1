use raytracer::colors::Color;
use raytracer::fixed::{Fx, FX_SCALE};
use raytracer::lights::Light;
use raytracer::primitives::Ray;
use raytracer::renderer::{render, CameraRay, DrawCanvas, RenderOptions};
use raytracer::result::DrawCanvasError;
use raytracer::scene::{Effects, Scene, SceneObject, SceneOptions, Shape, Sphere, Texture};
use raytracer::vector::Vec3;

fn fx(v: f64) -> Fx {
    Fx::from_raw((v * (FX_SCALE as f64)) as i64)
}

fn v3(x: f64, y: f64, z: f64) -> Vec3 {
    Vec3::new(fx(x), fx(y), fx(z))
}

fn col(r: f64, g: f64, b: f64) -> Color {
    Color::new(fx(r), fx(g), fx(b))
}

/// A canvas that keeps every drawn pixel.
struct BufferCanvas {
    pixels: Vec<(u32, u32, i64, i64, i64)>,
}

impl DrawCanvas for BufferCanvas {
    fn draw(&mut self, x: u32, y: u32, color: &Color) -> Result<(), DrawCanvasError> {
        self.pixels.push((x, y, color.red.raw, color.green.raw, color.blue.raw));
        Ok(())
    }
}

fn cross(a: (f64, f64, f64), b: (f64, f64, f64)) -> (f64, f64, f64) {
    (a.1 * b.2 - a.2 * b.1, a.2 * b.0 - a.0 * b.2, a.0 * b.1 - a.1 * b.0)
}

fn normalize(a: (f64, f64, f64)) -> (f64, f64, f64) {
    let len = (a.0 * a.0 + a.1 * a.1 + a.2 * a.2).sqrt();
    (a.0 / len, a.1 / len, a.2 / len)
}

/// The ray sequence of a pinhole camera at `eye` looking toward
/// `target`, with the given vertical half field of view, one ray per
/// pixel in row scan order.
fn perspective_rays(
    eye: (f64, f64, f64),
    target: (f64, f64, f64),
    fov: f64,
    width: u32,
    height: u32,
) -> Vec<CameraRay> {
    let forward = normalize((target.0 - eye.0, target.1 - eye.1, target.2 - eye.2));
    let right = normalize(cross((0.0, 1.0, 0.0), forward));
    let up = cross(forward, right);
    let half_h = fov.tan();
    let half_w = half_h * width as f64 / height as f64;
    let mut rays = Vec::new();
    for j in 0..height {
        for i in 0..width {
            let u = (2.0 * (i as f64 + 0.5) / width as f64 - 1.0) * half_w;
            let v = (1.0 - 2.0 * (j as f64 + 0.5) / height as f64) * half_h;
            let dir = normalize((
                forward.0 + u * right.0 + v * up.0,
                forward.1 + u * right.1 + v * up.1,
                forward.2 + u * right.2 + v * up.2,
            ));
            rays.push(CameraRay {
                x: i,
                y: j,
                ray: Ray::new(v3(eye.0, eye.1, eye.2), v3(dir.0, dir.1, dir.2)),
            });
        }
    }
    rays
}

fn scenario_scene() -> Scene {
    Scene {
        objects: vec![SceneObject::new(
            Shape::Sphere(Sphere { center: v3(0.0, 0.0, 0.0), radius: fx(5.0) }),
            Texture::Plain(col(1.0, 1.0, 1.0)),
            Effects { phong: None, transparency: None },
        )],
        lights: vec![Light::new(v3(50.0, 100.0, -50.0), col(0.8, 0.8, 0.8))],
        options: SceneOptions {
            ambient_light: None,
            world_color: col(0.05, 0.05, 0.2),
            maximum_light_recursion: 3,
        },
    }
}

fn render_scenario() -> Vec<(u32, u32, i64, i64, i64)> {
    let scene = scenario_scene();
    // One sphere of radius 5 at the origin, a point light at
    // (50, 100, -50), the camera at (0, 10, -10) looking toward
    // (0, 0, 30) with a field of view of pi / 8, on a 32 x 18 canvas.
    let rays = perspective_rays(
        (0.0, 10.0, -10.0),
        (0.0, 0.0, 30.0),
        std::f64::consts::PI / 8.0,
        32,
        18,
    );
    let options = RenderOptions { canvas_width: 32, canvas_height: 18 };
    let mut canvas = BufferCanvas { pixels: Vec::new() };
    render(&scene, &rays, &mut canvas, &options).unwrap();
    canvas.pixels
}

#[test]
fn scenario_shows_a_lit_silhouette_against_the_background() {
    let pixels = render_scenario();
    assert_eq!(pixels.len(), 32 * 18);

    let scene = scenario_scene();
    let world = (
        scene.options.world_color.red.raw,
        scene.options.world_color.green.raw,
        scene.options.world_color.blue.raw,
    );

    let lit: Vec<&(u32, u32, i64, i64, i64)> = pixels
        .iter()
        .filter(|p| (p.2, p.3, p.4) != world)
        .collect();

    // The sphere is visible but does not fill the frame.
    assert!(lit.len() > 4, "expected a visible silhouette, got {} lit pixels", lit.len());
    assert!(lit.len() < 32 * 18 / 2);

    // The corners show the background.
    for p in pixels.iter() {
        if (p.0 == 0 || p.0 == 31) && (p.1 == 1 || p.1 == 18) {
            assert_eq!((p.2, p.3, p.4), world);
        }
    }

    // The silhouette is shaded as a gradient, not flat.
    let mut brightness: Vec<i64> = lit.iter().map(|p| p.2 + p.3 + p.4).collect();
    brightness.sort();
    brightness.dedup();
    assert!(brightness.len() >= 3, "expected a gradient, got {} levels", brightness.len());

    // The brightest pixel leans toward the light, which stands to the
    // upper right of the camera.
    let brightest = lit.iter().max_by_key(|p| p.2 + p.3 + p.4).unwrap();
    let mean_x = lit.iter().map(|p| p.0 as f64).sum::<f64>() / lit.len() as f64;
    assert!(brightest.0 as f64 >= mean_x - 0.5);

    // Every lit pixel carries non-negative light.
    for p in lit.iter() {
        assert!(p.2 >= 0 && p.3 >= 0 && p.4 >= 0);
    }
}

#[test]
fn rendering_twice_gives_identical_output() {
    let first = render_scenario();
    let second = render_scenario();
    assert_eq!(first.len(), second.len());
    for (a, b) in first.iter().zip(second.iter()) {
        assert_eq!(a, b);
    }
}
