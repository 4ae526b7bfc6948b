//! Material scattering and texture evaluation.

use raytracer::color::Color;
use raytracer::fixed::{fx_from_int, fx_ratio, FX_HALF, FX_ONE};
use raytracer::hittable::HitRecord;
use raytracer::material::dielectric::{Dielectric, RI_GLASS};
use raytracer::material::emissive::DiffuseLight;
use raytracer::material::lambertian::{lambertian_scatter_direction, Lambertian};
use raytracer::material::metal::Metal;
use raytracer::material::Material;
use raytracer::ray::Ray;
use raytracer::texture::checker::Checker;
use raytracer::texture::image::Image;
use raytracer::texture::perlin::perlin_generate_perm;
use raytracer::texture::solid_color::SolidColor;
use raytracer::texture::Texture;
use raytracer::vec3::{Point3, Vec3};

fn record_at_origin(mat: Material, front_face: bool) -> HitRecord {
    HitRecord {
        p: Point3::new(0, 0, 0),
        normal: Vec3::new(0, 0, FX_ONE),
        mat,
        t: FX_ONE,
        u: 0,
        v: 0,
        front_face,
    }
}

#[test]
fn dielectric_attenuation_is_always_white() {
    // The energy bound: across reflect and refract branches, including the
    // stochastic choice, the attenuation is white and never amplifies.
    let mat = Material::Dielectric(Dielectric::new(RI_GLASS));
    let rec = record_at_origin(Material::Dielectric(Dielectric::new(RI_GLASS)), true);
    let r = Ray::new(Point3::new(0, 0, fx_from_int(2)), Vec3::new(0, 0, -FX_ONE));
    for _ in 0..64 {
        let (attenuation, scattered) = mat.scatter(r, &rec).expect("dielectric always scatters");
        assert_eq!(attenuation, Color::white());
        assert!(0 <= attenuation.r && attenuation.r <= FX_ONE);
        assert!(0 <= attenuation.g && attenuation.g <= FX_ONE);
        assert!(0 <= attenuation.b && attenuation.b <= FX_ONE);
        assert_eq!(*scattered.origin(), rec.p);
    }
}

#[test]
fn lambertian_guard_falls_back_to_the_normal() {
    // Inject a draw that cancels the normal exactly: the scattered direction
    // must be the normal itself, never a zero vector.
    let normal = Vec3::new(0, 0, FX_ONE);
    let cancel = Vec3::new(0, 0, -FX_ONE);
    let dir = lambertian_scatter_direction(normal, cancel);
    assert_eq!(dir, normal);
    assert!(!dir.near_zero());
    // An ordinary draw passes through as the plain sum.
    let draw = Vec3::new(FX_HALF, FX_HALF, FX_HALF);
    let sum = lambertian_scatter_direction(normal, draw);
    assert_eq!(sum, normal.add(draw));
}

#[test]
fn lambertian_attenuation_is_the_texture_value() {
    let albedo = Color::new(fx_ratio(1, 10), fx_ratio(2, 10), fx_ratio(5, 10));
    let mat = Material::Lambertian(Lambertian::new(albedo));
    let rec = record_at_origin(Material::Lambertian(Lambertian::new(albedo)), true);
    let r = Ray::new(Point3::new(0, 0, fx_from_int(2)), Vec3::new(0, 0, -FX_ONE));
    let (attenuation, scattered) = mat.scatter(r, &rec).expect("lambertian always scatters");
    assert_eq!(attenuation, albedo);
    assert!(!scattered.direction().near_zero());
}

#[test]
fn metal_keeps_scatters_above_the_surface() {
    let mat = Material::Metal(Metal::new(Color::white(), 0));
    let rec = record_at_origin(Material::Metal(Metal::new(Color::white(), 0)), true);
    let r = Ray::new(Point3::new(0, 0, fx_from_int(2)), Vec3::new(0, 0, -FX_ONE));
    for _ in 0..16 {
        if let Some((attenuation, scattered)) = mat.scatter(r, &rec) {
            assert_eq!(attenuation, Color::white());
            assert!(scattered.direction().dot(rec.normal) > 0);
        }
    }
}

#[test]
fn only_lights_emit() {
    let glow = Color::new(fx_from_int(4), fx_from_int(4), fx_from_int(4));
    let light = Material::DiffuseLight(DiffuseLight::new(glow));
    assert_eq!(light.emitted(0, 0, Point3::new(0, 0, 0)), glow);
    let rec = record_at_origin(Material::DiffuseLight(DiffuseLight::new(glow)), true);
    let r = Ray::new(Point3::new(0, 0, fx_from_int(2)), Vec3::new(0, 0, -FX_ONE));
    assert!(light.scatter(r, &rec).is_none());
    let grey = Material::Lambertian(Lambertian::new(Color::half_grey()));
    assert_eq!(grey.emitted(0, 0, Point3::new(0, 0, 0)), Color::black());
}

#[test]
fn reflection_about_the_up_axis() {
    let v = Vec3::new(FX_ONE, -FX_ONE, 0);
    let n = Vec3::new(0, FX_ONE, 0);
    assert_eq!(v.reflect(n), Vec3::new(FX_ONE, FX_ONE, 0));
}

#[test]
fn solid_color_ignores_coordinates() {
    let c = Color::new(1, 2, 3);
    let t = Texture::SolidColor(SolidColor::new(c));
    assert_eq!(t.value(0, 0, Point3::new(0, 0, 0)), c);
    assert_eq!(t.value(FX_ONE, FX_HALF, Point3::new(9, 9, 9)), c);
}

#[test]
fn checker_alternates_between_cells() {
    let even = Color::black();
    let odd = Color::white();
    let t = Texture::Checker(Checker::from_colors(FX_ONE, even, odd));
    // Cell parities: the origin is even, one unit along x is odd.
    let a = t.value(0, 0, Point3::new(FX_HALF, FX_HALF, FX_HALF));
    let b = t.value(0, 0, Point3::new(FX_ONE + FX_HALF, FX_HALF, FX_HALF));
    assert_eq!(a, even);
    assert_eq!(b, odd);
}

#[test]
fn image_texture_reads_the_raster() {
    // A 2 x 1 raster: a pure-red left sample, a pure-green right one.
    let pixels = vec![255, 0, 0, 0, 255, 0];
    let img = Image::new(2, 1, pixels);
    let t = Texture::Image(img);
    let left = t.value(0, FX_HALF, Point3::new(0, 0, 0));
    let right = t.value(FX_ONE, FX_HALF, Point3::new(0, 0, 0));
    // Channel 255 decodes through the squared gamma to one-ish.
    assert!(left.r > 60000 && left.g == 0 && left.b == 0);
    assert!(right.g > 60000 && right.r == 0 && right.b == 0);
}

#[test]
fn perlin_permutation_is_a_permutation() {
    let p = perlin_generate_perm();
    assert_eq!(p.len(), 256);
    let mut seen = [false; 256];
    for &v in p.iter() {
        assert!(v < 256);
        assert!(!seen[v], "index repeated");
        seen[v] = true;
    }
}

#[test]
fn noise_texture_values_are_finite_and_reproducible() {
    let t = Texture::Noise(raytracer::texture::noise::Noise::new(4 * FX_ONE));
    let p = Point3::new(fx_ratio(7, 3), fx_ratio(-5, 2), fx_ratio(11, 7));
    let a = t.value(0, 0, p);
    let b = t.value(0, 0, p);
    assert_eq!(a, b);
    assert!(a.r.abs() <= 2 * FX_ONE);
}
