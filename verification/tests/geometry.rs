//! Intersection geometry: the slab test, sphere and quad hits, the linear
//! scan, and the tree traversal against its linear-scan oracle.

use raytracer::color::Color;
use raytracer::fixed::{fx_from_int, FX_HALF, FX_HUGE, FX_ONE};
use raytracer::hittable::aabb::Aabb;
use raytracer::hittable::bvh::BvhNode;
use raytracer::hittable::hittable_list::HittableList;
use raytracer::hittable::quad::Quad;
use raytracer::hittable::sphere::Sphere;
use raytracer::hittable::Hittable;
use raytracer::interval::Interval;
use raytracer::material::lambertian::Lambertian;
use raytracer::material::Material;
use raytracer::ray::Ray;
use raytracer::vec3::{Point3, Vec3};

fn grey() -> Material {
    Material::Lambertian(Lambertian::new(Color::half_grey()))
}

fn unit_box_around_origin() -> Aabb {
    Aabb::from_points(
        Point3::new(-FX_ONE, -FX_ONE, -FX_ONE),
        Point3::new(FX_ONE, FX_ONE, FX_ONE),
    )
}

#[test]
fn slab_test_hits_a_box_straight_on() {
    let b = unit_box_around_origin();
    let r = Ray::new(Point3::new(0, 0, fx_from_int(3)), Vec3::new(0, 0, -FX_ONE));
    assert!(b.hit(r, Interval::new(0, FX_HUGE)));
}

#[test]
fn slab_test_rejects_an_empty_interval() {
    let b = unit_box_around_origin();
    let r = Ray::new(Point3::new(0, 0, fx_from_int(3)), Vec3::new(0, 0, -FX_ONE));
    assert!(!b.hit(r, Interval::empty()));
    assert!(!b.hit(r, Interval::new(fx_from_int(10), fx_from_int(20))));
}

#[test]
fn slab_test_tolerates_a_ray_parallel_to_a_face() {
    let b = unit_box_around_origin();
    // A ray with a zero x component inside the x slab still hits.
    let inside = Ray::new(Point3::new(0, 0, fx_from_int(3)), Vec3::new(0, 0, -FX_ONE));
    assert!(b.hit(inside, Interval::new(0, FX_HUGE)));
    // The same direction outside the x slab misses.
    let outside = Ray::new(
        Point3::new(fx_from_int(2), 0, fx_from_int(3)),
        Vec3::new(0, 0, -FX_ONE),
    );
    assert!(!b.hit(outside, Interval::new(0, FX_HUGE)));
}

#[test]
fn slab_test_through_a_corner_region() {
    let b = unit_box_around_origin();
    let r = Ray::new(
        Point3::new(fx_from_int(3), fx_from_int(3), fx_from_int(3)),
        Vec3::new(-FX_ONE, -FX_ONE, -FX_ONE),
    );
    assert!(b.hit(r, Interval::new(0, FX_HUGE)));
}

#[test]
fn sphere_round_trip_reproduces_both_crossings() {
    // A ray through the center of a unit sphere at z = -2 enters at t = 1
    // and leaves at t = 3, exactly representable values.
    let s = Hittable::Sphere(Sphere::new(
        Point3::new(0, 0, fx_from_int(-2)),
        FX_ONE,
        grey(),
    ));
    let r = Ray::new(Point3::new(0, 0, 0), Vec3::new(0, 0, -FX_ONE));
    let near = s.hit(r, Interval::new(1, FX_HUGE)).expect("front crossing");
    assert_eq!(near.t, FX_ONE);
    assert_eq!(near.p.z, -FX_ONE);
    assert!(near.front_face);
    let far = s
        .hit(r, Interval::new(fx_from_int(2), fx_from_int(4)))
        .expect("back crossing");
    assert_eq!(far.t, fx_from_int(3));
    assert_eq!(far.p.z, fx_from_int(-3));
    assert!(!far.front_face);
}

#[test]
fn sphere_misses_outside_the_interval() {
    let s = Hittable::Sphere(Sphere::new(
        Point3::new(0, 0, fx_from_int(-2)),
        FX_ONE,
        grey(),
    ));
    let r = Ray::new(Point3::new(0, 0, 0), Vec3::new(0, 0, -FX_ONE));
    assert!(s.hit(r, Interval::new(fx_from_int(4), fx_from_int(9))).is_none());
    let away = Ray::new(Point3::new(0, 0, 0), Vec3::new(0, 0, FX_ONE));
    assert!(away.direction().z > 0);
    assert!(s.hit(away, Interval::new(1, FX_HUGE)).is_none());
}

#[test]
fn quad_hit_reports_planar_coordinates() {
    let q = Hittable::Quad(Quad::new(
        Point3::new(-FX_ONE, -FX_ONE, -FX_ONE),
        Vec3::new(fx_from_int(2), 0, 0),
        Vec3::new(0, fx_from_int(2), 0),
        grey(),
    ));
    let r = Ray::new(Point3::new(0, 0, 0), Vec3::new(0, 0, -FX_ONE));
    let rec = q.hit(r, Interval::new(1, FX_HUGE)).expect("quad hit");
    assert_eq!(rec.t, FX_ONE);
    assert_eq!(rec.u, FX_HALF);
    assert_eq!(rec.v, FX_HALF);
}

#[test]
fn quad_rejects_a_parallel_ray_and_points_outside() {
    let q = Hittable::Quad(Quad::new(
        Point3::new(-FX_ONE, -FX_ONE, -FX_ONE),
        Vec3::new(fx_from_int(2), 0, 0),
        Vec3::new(0, fx_from_int(2), 0),
        grey(),
    ));
    let parallel = Ray::new(Point3::new(0, 0, 0), Vec3::new(FX_ONE, 0, 0));
    assert!(q.hit(parallel, Interval::new(1, FX_HUGE)).is_none());
    let wide = Ray::new(Point3::new(fx_from_int(5), 0, 0), Vec3::new(0, 0, -FX_ONE));
    assert!(q.hit(wide, Interval::new(1, FX_HUGE)).is_none());
}

fn sphere_at(x: i64, y: i64, z: i64, radius_half: bool) -> Hittable {
    Hittable::Sphere(Sphere::new(
        Point3::new(fx_from_int(x), fx_from_int(y), fx_from_int(z)),
        if radius_half { FX_HALF } else { FX_ONE },
        grey(),
    ))
}

fn fixture_objects() -> Vec<Hittable> {
    vec![
        sphere_at(0, 0, -3, false),
        sphere_at(0, 0, -6, false),
        sphere_at(2, 0, -4, true),
        sphere_at(-2, 1, -5, false),
        sphere_at(0, 2, -7, true),
        sphere_at(1, -1, -9, false),
        sphere_at(-3, 0, -2, true),
    ]
}

fn fixture_rays() -> Vec<Ray> {
    let o = Point3::new(0, 0, 0);
    vec![
        Ray::new(o, Vec3::new(0, 0, -FX_ONE)),
        Ray::new(o, Vec3::new(FX_HALF, 0, -FX_ONE)),
        Ray::new(o, Vec3::new(-FX_HALF, FX_HALF, -FX_ONE)),
        Ray::new(o, Vec3::new(0, FX_HALF, -FX_ONE)),
        Ray::new(Point3::new(fx_from_int(5), 0, fx_from_int(-4)), Vec3::new(-FX_ONE, 0, 0)),
        Ray::new(o, Vec3::new(0, FX_ONE, 0)),
    ]
}

#[test]
fn list_scan_returns_the_nearest_hit() {
    let mut world = HittableList::new();
    for o in fixture_objects() {
        world.add(o);
    }
    let list = Hittable::HittableList(world);
    let r = Ray::new(Point3::new(0, 0, 0), Vec3::new(0, 0, -FX_ONE));
    let rec = list.hit(r, Interval::new(1, FX_HUGE)).expect("nearest");
    // The sphere at z = -3 with radius 1 is entered at t = 2.
    assert_eq!(rec.t, fx_from_int(2));
}

#[test]
fn list_scan_order_does_not_change_the_nearest_parameter() {
    let mut fwd = HittableList::new();
    for o in fixture_objects() {
        fwd.add(o);
    }
    let mut rev = HittableList::new();
    for o in fixture_objects().into_iter().rev() {
        rev.add(o);
    }
    let a = Hittable::HittableList(fwd);
    let b = Hittable::HittableList(rev);
    for r in fixture_rays() {
        let ra = a.hit(r, Interval::new(1, FX_HUGE));
        let rb = b.hit(r, Interval::new(1, FX_HUGE));
        match (ra, rb) {
            (Some(x), Some(y)) => assert_eq!(x.t, y.t),
            (None, None) => {}
            _ => panic!("one order hit, the other missed"),
        }
    }
}

#[test]
fn bvh_traversal_matches_the_linear_scan_oracle() {
    let mut list = HittableList::new();
    for o in fixture_objects() {
        list.add(o);
    }
    let mut for_tree = HittableList::new();
    for o in fixture_objects() {
        for_tree.add(o);
    }
    let flat = Hittable::HittableList(list);
    let tree = Hittable::BvhNode(BvhNode::from_list(for_tree));
    for r in fixture_rays() {
        for itv in [
            Interval::new(1, FX_HUGE),
            Interval::new(1, fx_from_int(5)),
            Interval::new(fx_from_int(3), fx_from_int(8)),
        ] {
            let a = flat.hit(r, itv);
            let b = tree.hit(r, itv);
            match (a, b) {
                (Some(x), Some(y)) => assert_eq!(x.t, y.t),
                (None, None) => {}
                _ => panic!("tree and scan disagree on hit existence"),
            }
        }
    }
}

#[test]
fn sphere_uv_is_exact_on_the_axes() {
    // Longitude from x = -1 around the y axis, latitude from the south pole:
    // the +x equator point and both poles land on exact fixed-point halves.
    let equator = Sphere::get_sphere_uv(Point3::new(FX_ONE, 0, 0));
    assert_eq!(equator, (FX_HALF, FX_HALF));
    let north = Sphere::get_sphere_uv(Point3::new(0, FX_ONE, 0));
    assert_eq!(north, (FX_HALF, FX_ONE));
    let south = Sphere::get_sphere_uv(Point3::new(0, -FX_ONE, 0));
    assert_eq!(south, (FX_HALF, 0));
}

#[test]
fn bounding_boxes_grow_around_added_objects() {
    let mut world = HittableList::new();
    world.add(sphere_at(0, 0, -3, false));
    let b1 = Hittable::HittableList(world).bounding_box();
    assert!(b1.x.min <= fx_from_int(-1) && b1.x.max >= fx_from_int(1));
    assert!(b1.z.min <= fx_from_int(-4) && b1.z.max >= fx_from_int(-2));
}

#[test]
fn translate_shifts_hits_back_to_world_space() {
    let inner = sphere_at(0, 0, -3, false);
    let moved = Hittable::Translate(raytracer::hittable::instance::Translate::new(
        inner,
        Vec3::new(fx_from_int(2), 0, 0),
    ));
    let r = Ray::new(Point3::new(fx_from_int(2), 0, 0), Vec3::new(0, 0, -FX_ONE));
    let rec = moved.hit(r, Interval::new(1, FX_HUGE)).expect("translated hit");
    assert_eq!(rec.t, fx_from_int(2));
    assert_eq!(rec.p.x, fx_from_int(2));
}
