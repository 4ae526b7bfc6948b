//! The preset scenes construct, intersect, and render at tiny sizes.

use raytracer::camera::Camera;
use raytracer::fixed::{fx_from_int, FX_HUGE, FX_ONE};
use raytracer::hittable::Hittable;
use raytracer::interval::Interval;
use raytracer::ray::Ray;
use raytracer::scene::{
    cornell_box, cornell_box_cam, cornell_smoke, fuzzed_metal, hollow_glass, marble_spheres,
    perlin_spheres, quads, smooth_metal, solid_glass, symbol, symbol_camera, turbulent_spheres,
    two_checkered_spheres, two_lambertians, two_spheres,
};
use raytracer::vec3::{Point3, Vec3};

fn forward_hit_t(world: &Hittable, origin: Point3, dir: Vec3) -> Option<i64> {
    world
        .hit(Ray::new(origin, dir), Interval::new(66, FX_HUGE))
        .map(|rec| rec.t)
}

#[test]
fn the_simple_scenes_all_see_their_center_sphere() {
    let origin = Point3::new(0, 0, 0);
    let down_z = Vec3::new(0, 0, -FX_ONE);
    for world in [
        two_lambertians(),
        smooth_metal(),
        fuzzed_metal(),
        solid_glass(),
        raytracer::scene::air_bubble(),
        hollow_glass(),
        two_spheres(),
    ] {
        assert!(forward_hit_t(&world, origin, down_z).is_some());
    }
}

#[test]
fn the_textured_scenes_intersect_their_ground() {
    let above = Point3::new(0, fx_from_int(5), 0);
    let down = Vec3::new(0, -FX_ONE, 0);
    for world in [
        two_checkered_spheres(),
        perlin_spheres(),
        turbulent_spheres(),
        marble_spheres(),
    ] {
        assert!(forward_hit_t(&world, above, down).is_some());
    }
}

#[test]
fn the_quad_wall_faces_its_camera() {
    let world = quads();
    let t = forward_hit_t(
        &world,
        Point3::new(0, 0, fx_from_int(9)),
        Vec3::new(0, 0, -FX_ONE),
    )
    .expect("the back quad is straight ahead");
    assert_eq!(t, fx_from_int(9));
}

#[test]
fn the_enclosed_room_surrounds_its_camera_target() {
    for world in [cornell_box(), cornell_smoke()] {
        let inside = Point3::new(fx_from_int(278), fx_from_int(278), fx_from_int(278));
        for dir in [
            Vec3::new(FX_ONE, 0, 0),
            Vec3::new(-FX_ONE, 0, 0),
            Vec3::new(0, FX_ONE, 0),
            Vec3::new(0, -FX_ONE, 0),
        ] {
            assert!(
                forward_hit_t(&world, inside, dir).is_some(),
                "a wall should be seen in every direction"
            );
        }
    }
}

#[test]
fn the_lit_scene_renders_light_against_a_dark_background() {
    let world = symbol();
    let camera = Camera {
        image_width: 6,
        samples_per_pixel: 2,
        max_depth: 3,
        ..symbol_camera()
    };
    let frame = camera.render(&world);
    assert!(!frame.is_empty());
}

#[test]
fn a_tiny_enclosed_render_completes() {
    let world = cornell_box();
    let camera = cornell_box_cam(4, 1, 2);
    let frame = camera.render(&world);
    assert_eq!(frame.len(), 16);
}
