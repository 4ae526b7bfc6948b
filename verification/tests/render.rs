//! The integrator and the sampling loop, end to end.

use raytracer::camera::{Camera, CameraCore, FX_SURFACE_EPS};
use raytracer::color::Color;
use raytracer::fixed::{fx_from_int, fx_ratio, FX_HALF, FX_HUGE, FX_ONE};
use raytracer::hittable::hittable_list::HittableList;
use raytracer::hittable::quad::Quad;
use raytracer::hittable::Hittable;
use raytracer::interval::Interval;
use raytracer::material::metal::Metal;
use raytracer::material::Material;
use raytracer::ray::Ray;
use raytracer::scene::{two_lambertians, unmoved_camera};
use raytracer::vec3::{Point3, Vec3};

fn core_over(camera: &Camera) -> CameraCore {
    CameraCore::initialize(camera)
}

#[test]
fn initialize_derives_the_image_height_from_the_aspect_ratio() {
    let core = core_over(&Camera::new_basic());
    assert_eq!(core.image_height, 100);
    let wide = core_over(&unmoved_camera());
    assert_eq!(wide.image_width, 480);
    assert_eq!(wide.image_height, 270);
}

#[test]
fn a_missed_ray_returns_the_exact_sky_gradient() {
    // Straight up: the unit direction has y exactly one, so the blend picks
    // the full sky blue, a pixel of the top gradient band.
    let world = two_lambertians();
    let core = core_over(&Camera::new_basic());
    let up = Ray::new(Point3::new(0, 0, 0), Vec3::new(0, FX_ONE, 0));
    let c = core.ray_color(up, 1, &world);
    assert_eq!(c, Color::new(FX_HALF, 45875, FX_ONE));
}

#[test]
fn an_exhausted_bounce_budget_contributes_black() {
    let world = two_lambertians();
    let core = core_over(&Camera::new_basic());
    let down_z = Ray::new(Point3::new(0, 0, 0), Vec3::new(0, 0, -FX_ONE));
    assert_eq!(core.ray_color(down_z, 0, &world), Color::black());
}

#[test]
fn the_center_sphere_absorbs_the_last_bounce() {
    // With one bounce left, the hit scatters and the recursion bottoms out:
    // the diffuse sphere contributes exactly black.
    let world = two_lambertians();
    let core = core_over(&Camera::new_basic());
    let down_z = Ray::new(Point3::new(0, 0, 0), Vec3::new(0, 0, -FX_ONE));
    let rec = world
        .hit(down_z, Interval::new(FX_SURFACE_EPS, FX_HUGE))
        .expect("the center sphere is ahead");
    assert_eq!(rec.t, FX_HALF);
    assert_eq!(core.ray_color(down_z, 1, &world), Color::black());
}

#[test]
fn two_facing_mirrors_terminate_at_the_depth_limit_with_black() {
    // A ray trapped between two perfect mirrors: the recursion ends at the
    // bounce budget, never hangs, and the trapped path carries no light.
    let mirror = Material::Metal(Metal::new(Color::white(), 0));
    let mut world = HittableList::new();
    world.add(Hittable::Quad(Quad::new(
        Point3::new(-FX_ONE, -FX_ONE, -fx_from_int(2)),
        Vec3::new(fx_from_int(2), 0, 0),
        Vec3::new(0, fx_from_int(2), 0),
        mirror.clone(),
    )));
    world.add(Hittable::Quad(Quad::new(
        Point3::new(-FX_ONE, -FX_ONE, fx_from_int(2)),
        Vec3::new(fx_from_int(2), 0, 0),
        Vec3::new(0, fx_from_int(2), 0),
        mirror,
    )));
    let scene = Hittable::HittableList(world);
    let core = core_over(&Camera::new_basic());
    let trapped = Ray::new(Point3::new(0, 0, 0), Vec3::new(0, 0, -FX_ONE));
    for depth in [1u32, 2, 5, 50] {
        assert_eq!(core.ray_color(trapped, depth, &scene), Color::black());
    }
}

#[test]
fn render_produces_one_color_per_pixel() {
    let world = two_lambertians();
    let camera = Camera {
        image_width: 8,
        samples_per_pixel: 1,
        max_depth: 2,
        ..Camera::new_basic()
    };
    let frame = camera.render(&world);
    let core = core_over(&camera);
    assert_eq!(frame.len(), (core.image_width * core.image_height) as usize);
    // The top rows look at the sky: blue dominates red there.
    let top = frame[0];
    assert!(top.b >= top.r, "top row should be sky: {top:?}");
}

#[test]
fn deterministic_camera_rays_walk_the_viewport() {
    let core = core_over(&Camera::new_basic());
    let zero = Vec3::new(0, 0, 0);
    let a = core.get_ray_at(0, 0, zero, zero);
    let b = core.get_ray_at(core.image_width - 1, 0, zero, zero);
    // Both rays start at the camera center and point at different pixels.
    assert_eq!(*a.origin(), *core_over(&Camera::new_basic()).get_ray_at(0, 0, zero, zero).origin());
    assert!(a.direction().x < b.direction().x);
    assert_eq!(a.time(), 0);
}

#[test]
fn gamma_quantization_of_reference_colors() {
    assert_eq!(Color::black().to_rgb8(), (0, 0, 0));
    assert_eq!(Color::white().to_rgb8(), (255, 255, 255));
    // sqrt(1/2) = 46340 raw, quantized to 181.
    assert_eq!(Color::half_grey().to_rgb8(), (181, 181, 181));
    let negative = Color::new(-FX_ONE, 0, fx_ratio(1, 4)).to_rgb8();
    assert_eq!(negative.0, 0);
    assert_eq!(negative.2, 128);
}
