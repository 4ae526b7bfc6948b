//! Ready-made scenes and camera placements.
//!
//! Every scene comes back well formed, so it can be handed straight to the
//! renderer; scenes without a participating medium are also deterministic,
//! so their intersections are pinned exactly by the specs of `hit`.

use vstd::prelude::*;
use crate::camera::Camera;
use crate::color::Color;
use crate::fixed::{fx_from_int, fx_mul, fx_ratio, FX_HALF, FX_ONE};
use crate::hittable::bvh::BvhNode;
use crate::hittable::constant_medium::ConstantMedium;
use crate::hittable::hittable_list::HittableList;
use crate::hittable::instance::{Translate, YRotate};
use crate::hittable::instance::{radians_v, rotated_box_v, translated_box_v};
use crate::hittable::quad::{box_faces_v, quad_v, Quad};
use crate::hittable::sphere::{sphere_v, Sphere};
use crate::hittable::{bounding_box_v, deterministic, hittable_wf, Hittable};
use crate::material::dielectric::{Dielectric, RI_AIR, RI_GLASS, RI_WATER};
use crate::material::emissive::DiffuseLight;
use crate::material::isotropic::Isotropic;
use crate::material::lambertian::Lambertian;
use crate::material::metal::Metal;
use crate::material::{material_wf, Material};
use crate::fmath::{fx_cos_v, fx_sin_v};
use crate::texture::checker::Checker;
use crate::texture::image::{image_wf, Image};
use crate::texture::noise::{MarbleNoise, Noise, TurbNoise};
use crate::texture::solid_color::SolidColor;
use crate::texture::Texture;
use crate::vec3::Point3;

verus! {

/// The scalar standing for a whole number, in spec contexts.
pub open spec fn units_v(n: int) -> i64 {
    crate::fixed::sat(n * (FX_ONE as int)) as i64
}

/// The scalar standing for a fraction of whole numbers, in spec contexts.
pub open spec fn ratio_v(n: int, d: int) -> i64 {
    crate::fixed::fx_div_v(
        crate::fixed::sat(n * (FX_ONE as int)),
        crate::fixed::sat(d * (FX_ONE as int)),
    ) as i64
}

/// A color from per-thousand channel values, in spec contexts.
pub open spec fn rgb_v(r: int, g: int, b: int) -> Color {
    Color { r: ratio_v(r, 1000), g: ratio_v(g, 1000), b: ratio_v(b, 1000) }
}

/// A point from whole-unit coordinates, in spec contexts.
pub open spec fn pt_v(x: int, y: int, z: int) -> Point3 {
    Point3 { x: units_v(x), y: units_v(y), z: units_v(z) }
}

/// A diffuse material of one solid color, in spec contexts.
pub open spec fn matte_v(c: Color) -> Material {
    Material::Lambertian(Lambertian { tex: Texture::SolidColor(SolidColor { albedo: c }) })
}

/// A light of one solid color, in spec contexts.
pub open spec fn glow_v(c: Color) -> Material {
    Material::DiffuseLight(DiffuseLight { tex: Texture::SolidColor(SolidColor { albedo: c }) })
}

/// A fixed-point color from per-thousand channel values.
fn rgb(r: i64, g: i64, b: i64) -> (res: Color)
    requires
        0 <= r <= 1000,
        0 <= g <= 1000,
        0 <= b <= 1000,
    ensures
        res == rgb_v(r as int, g as int, b as int),
{
    Color::new(fx_ratio(r, 1000), fx_ratio(g, 1000), fx_ratio(b, 1000))
}

/// A point from whole-unit coordinates.
fn pt(x: i64, y: i64, z: i64) -> (res: Point3)
    ensures
        res == pt_v(x as int, y as int, z as int),
{
    Point3::new(fx_from_int(x), fx_from_int(y), fx_from_int(z))
}

/// Two grey diffuse spheres: a small one ahead of the camera and the ground.
pub fn two_lambertians() -> (r: Hittable)
    ensures
        hittable_wf(r),
        deterministic(r),
        r matches Hittable::HittableList(l) && l.objects@ == two_lambertians_v(),
{
    let mut world = HittableList::new();
    let mat = Material::Lambertian(Lambertian::new(Color::half_grey()));
    world.add(
        Hittable::Sphere(Sphere::new(pt(0, 0, -1), FX_HALF, mat.clone())),
    );
    world.add(
        Hittable::Sphere(Sphere::new(Point3::new(0, fx_ratio(-201, 2), -FX_ONE), fx_from_int(100), mat)),
    );
    proof {
        let grey = matte_v(Color { r: FX_HALF, g: FX_HALF, b: FX_HALF });
        assert(Hittable::HittableList(world)->HittableList_0.objects@ =~= two_lambertians_v());
    }
    Hittable::HittableList(world)
}

/// The exact contents of the two-sphere diffuse fixture: a half-unit grey
/// sphere one unit ahead of the origin, and the hundred-unit grey ground
/// below it.
pub open spec fn two_lambertians_v() -> Seq<Hittable> {
    let grey = matte_v(Color { r: FX_HALF, g: FX_HALF, b: FX_HALF });
    seq![
        Hittable::Sphere(sphere_v(pt_v(0, 0, -1), FX_HALF, grey)),
        Hittable::Sphere(
            sphere_v(
                Point3 { x: 0, y: ratio_v(-201, 2), z: -FX_ONE as i64 },
                units_v(100),
                grey,
            ),
        ),
    ]
}

/// The exact contents of the four-sphere arrangement: the yellow ground,
/// the blue-grey center sphere, and the two given materials left and right.
pub open spec fn four_spheres_v(material_left: Material, material_right: Material) -> Seq<Hittable> {
    seq![
        Hittable::Sphere(
            sphere_v(
                Point3 { x: 0, y: ratio_v(-201, 2), z: -FX_ONE as i64 },
                units_v(100),
                matte_v(rgb_v(800, 800, 0)),
            ),
        ),
        Hittable::Sphere(
            sphere_v(
                Point3 { x: 0, y: 0, z: ratio_v(-6, 5) },
                FX_HALF,
                matte_v(rgb_v(100, 200, 500)),
            ),
        ),
        Hittable::Sphere(sphere_v(pt_v(-1, 0, -1), FX_HALF, material_left)),
        Hittable::Sphere(sphere_v(pt_v(1, 0, -1), FX_HALF, material_right)),
    ]
}

/// The four-sphere arrangement shared by the metal and glass scenes: ground,
/// a diffuse center sphere, and two spheres of the given materials.
fn four_spheres(material_left: Material, material_right: Material) -> (r: Hittable)
    requires
        material_wf(material_left),
        material_wf(material_right),
    ensures
        hittable_wf(r),
        deterministic(r),
        r matches Hittable::HittableList(l) && l.objects@ == four_spheres_v(
            material_left,
            material_right,
        ),
{
    let mut world = HittableList::new();
    let material_ground = Material::Lambertian(Lambertian::new(rgb(800, 800, 0)));
    let material_center = Material::Lambertian(Lambertian::new(rgb(100, 200, 500)));
    world.add(
        Hittable::Sphere(
            Sphere::new(Point3::new(0, fx_ratio(-201, 2), -FX_ONE), fx_from_int(100), material_ground),
        ),
    );
    world.add(
        Hittable::Sphere(
            Sphere::new(Point3::new(0, 0, fx_ratio(-6, 5)), FX_HALF, material_center),
        ),
    );
    world.add(Hittable::Sphere(Sphere::new(pt(-1, 0, -1), FX_HALF, material_left)));
    world.add(Hittable::Sphere(Sphere::new(pt(1, 0, -1), FX_HALF, material_right)));
    proof {
        assert(Hittable::HittableList(world)->HittableList_0.objects@ =~= four_spheres_v(
            material_left,
            material_right,
        ));
    }
    Hittable::HittableList(world)
}

/// Polished metal spheres beside a diffuse one.
pub fn smooth_metal() -> (r: Hittable)
    ensures
        hittable_wf(r),
        deterministic(r),
        r matches Hittable::HittableList(l) && l.objects@ == four_spheres_v(
            Material::Metal(Metal { albedo: rgb_v(800, 800, 800), fuzz: 0 }),
            Material::Metal(Metal { albedo: rgb_v(800, 600, 200), fuzz: 0 }),
        ),
{
    four_spheres(
        Material::Metal(Metal::new(rgb(800, 800, 800), 0)),
        Material::Metal(Metal::new(rgb(800, 600, 200), 0)),
    )
}

/// Metal spheres with fuzzed reflections.
pub fn fuzzed_metal() -> (r: Hittable)
    ensures
        hittable_wf(r),
        deterministic(r),
        r matches Hittable::HittableList(l) && l.objects@ == four_spheres_v(
            Material::Metal(Metal { albedo: rgb_v(800, 800, 800), fuzz: ratio_v(3, 10) }),
            Material::Metal(Metal { albedo: rgb_v(800, 600, 200), fuzz: FX_ONE }),
        ),
{
    four_spheres(
        Material::Metal(Metal::new(rgb(800, 800, 800), fx_ratio(3, 10))),
        Material::Metal(Metal::new(rgb(800, 600, 200), FX_ONE)),
    )
}

/// A solid glass sphere beside a fuzzed metal one.
pub fn solid_glass() -> (r: Hittable)
    ensures
        hittable_wf(r),
        deterministic(r),
        r matches Hittable::HittableList(l) && l.objects@ == four_spheres_v(
            Material::Dielectric(Dielectric { refraction_index: RI_GLASS }),
            Material::Metal(Metal { albedo: rgb_v(800, 600, 200), fuzz: FX_ONE }),
        ),
{
    four_spheres(
        Material::Dielectric(Dielectric::new(RI_GLASS)),
        Material::Metal(Metal::new(rgb(800, 600, 200), FX_ONE)),
    )
}

/// An air bubble in water beside a fuzzed metal sphere.
pub fn air_bubble() -> (r: Hittable)
    ensures
        hittable_wf(r),
        deterministic(r),
        r matches Hittable::HittableList(l) && l.objects@ == four_spheres_v(
            Material::Dielectric(
                Dielectric {
                    refraction_index: crate::fixed::fx_div_v(RI_AIR as int, RI_WATER as int) as i64,
                },
            ),
            Material::Metal(Metal { albedo: rgb_v(800, 600, 200), fuzz: FX_ONE }),
        ),
{
    four_spheres(
        Material::Dielectric(Dielectric::new(crate::fixed::fx_div(RI_AIR, RI_WATER))),
        Material::Metal(Metal::new(rgb(800, 600, 200), FX_ONE)),
    )
}

/// The exact contents of the hollow-glass fixture: the yellow ground, the
/// blue-grey center sphere, a glass shell with an air bubble inside it on
/// the left, and a fuzzed metal sphere on the right.
pub open spec fn hollow_glass_v() -> Seq<Hittable> {
    seq![
        Hittable::Sphere(
            sphere_v(
                Point3 { x: 0, y: ratio_v(-201, 2), z: -FX_ONE as i64 },
                units_v(100),
                matte_v(rgb_v(800, 800, 0)),
            ),
        ),
        Hittable::Sphere(
            sphere_v(
                Point3 { x: 0, y: 0, z: ratio_v(-6, 5) },
                FX_HALF,
                matte_v(rgb_v(100, 200, 500)),
            ),
        ),
        Hittable::Sphere(
            sphere_v(
                pt_v(-1, 0, -1),
                FX_HALF,
                Material::Dielectric(Dielectric { refraction_index: RI_GLASS }),
            ),
        ),
        Hittable::Sphere(
            sphere_v(
                pt_v(-1, 0, -1),
                ratio_v(2, 5),
                Material::Dielectric(
                    Dielectric {
                        refraction_index: crate::fixed::fx_div_v(
                            RI_AIR as int,
                            RI_GLASS as int,
                        ) as i64,
                    },
                ),
            ),
        ),
        Hittable::Sphere(
            sphere_v(
                pt_v(1, 0, -1),
                FX_HALF,
                Material::Metal(Metal { albedo: rgb_v(800, 600, 200), fuzz: FX_ONE }),
            ),
        ),
    ]
}

/// A hollow glass sphere: a glass shell with an air bubble inside it.
pub fn hollow_glass() -> (r: Hittable)
    ensures
        hittable_wf(r),
        deterministic(r),
        r matches Hittable::HittableList(l) && l.objects@ == hollow_glass_v(),
{
    let mut world = HittableList::new();
    let material_ground = Material::Lambertian(Lambertian::new(rgb(800, 800, 0)));
    let material_center = Material::Lambertian(Lambertian::new(rgb(100, 200, 500)));
    let material_left = Material::Dielectric(Dielectric::new(RI_GLASS));
    let material_bubble = Material::Dielectric(
        Dielectric::new(crate::fixed::fx_div(RI_AIR, RI_GLASS)),
    );
    let material_right = Material::Metal(Metal::new(rgb(800, 600, 200), FX_ONE));
    world.add(
        Hittable::Sphere(
            Sphere::new(Point3::new(0, fx_ratio(-201, 2), -FX_ONE), fx_from_int(100), material_ground),
        ),
    );
    world.add(
        Hittable::Sphere(
            Sphere::new(Point3::new(0, 0, fx_ratio(-6, 5)), FX_HALF, material_center),
        ),
    );
    world.add(Hittable::Sphere(Sphere::new(pt(-1, 0, -1), FX_HALF, material_left)));
    world.add(
        Hittable::Sphere(Sphere::new(pt(-1, 0, -1), fx_ratio(2, 5), material_bubble)),
    );
    world.add(Hittable::Sphere(Sphere::new(pt(1, 0, -1), FX_HALF, material_right)));
    proof {
        assert(Hittable::HittableList(world)->HittableList_0.objects@ =~= hollow_glass_v());
    }
    Hittable::HittableList(world)
}

/// The exact contents of the touching-sphere fixture: two spheres of radius
/// cosine of a quarter turn, blue on the left, red on the right.
pub open spec fn two_spheres_v() -> Seq<Hittable> {
    let radius = fx_cos_v(crate::fixed::fx_div_v(crate::fmath::FX_PI as int, (4 * FX_ONE) as int))
        as i64;
    seq![
        Hittable::Sphere(
            sphere_v(
                Point3 {
                    x: crate::fixed::fx_neg_v(radius as int) as i64,
                    y: 0,
                    z: -FX_ONE as i64,
                },
                radius,
                matte_v(rgb_v(0, 0, 1000)),
            ),
        ),
        Hittable::Sphere(
            sphere_v(
                Point3 { x: radius, y: 0, z: -FX_ONE as i64 },
                radius,
                matte_v(rgb_v(1000, 0, 0)),
            ),
        ),
    ]
}

/// Two touching diffuse spheres, blue and red.
pub fn two_spheres() -> (r: Hittable)
    ensures
        hittable_wf(r),
        deterministic(r),
        r matches Hittable::HittableList(l) && l.objects@ == two_spheres_v(),
{
    let mut world = HittableList::new();
    let radius = crate::fmath::fx_cos(crate::fixed::fx_div(crate::fmath::FX_PI, 4 * FX_ONE));
    let material_left = Material::Lambertian(Lambertian::new(rgb(0, 0, 1000)));
    let material_right = Material::Lambertian(Lambertian::new(rgb(1000, 0, 0)));
    world.add(
        Hittable::Sphere(
            Sphere::new(Point3::new(crate::fixed::fx_neg(radius), 0, -FX_ONE), radius, material_left),
        ),
    );
    world.add(
        Hittable::Sphere(Sphere::new(Point3::new(radius, 0, -FX_ONE), radius, material_right)),
    );
    proof {
        assert(Hittable::HittableList(world)->HittableList_0.objects@ =~= two_spheres_v());
    }
    Hittable::HittableList(world)
}

/// The shared checkerboard material of the checkered fixture: diffuse over
/// a checker of dark green against near-white, with cells of roughly a
/// third of a unit.
pub open spec fn is_checkered_matte(m: Material) -> bool {
    &&& m is Lambertian
    &&& m->Lambertian_0.tex is Checker
    &&& {
        let c = m->Lambertian_0.tex->Checker_0;
        &&& *c.even == Texture::SolidColor(SolidColor { albedo: rgb_v(200, 300, 100) })
        &&& *c.odd == Texture::SolidColor(SolidColor { albedo: rgb_v(900, 900, 900) })
        &&& c.inv_scale == crate::fixed::fx_div_v(FX_ONE as int, ratio_v(8, 25) as int) as i64
    }
}

/// The exact contents of the checkered fixture for a given shared material:
/// two radius-ten spheres, one below and one above.
pub open spec fn two_checkered_spheres_v(m: Material) -> Seq<Hittable> {
    seq![
        Hittable::Sphere(sphere_v(pt_v(0, -10, 0), units_v(10), m)),
        Hittable::Sphere(sphere_v(pt_v(0, 10, 0), units_v(10), m)),
    ]
}

/// Two large spheres sharing a checkerboard texture.
pub fn two_checkered_spheres() -> (r: Hittable)
    ensures
        hittable_wf(r),
        deterministic(r),
        r matches Hittable::HittableList(l) && exists|m: Material|
            #[trigger] is_checkered_matte(m) && l.objects@ == two_checkered_spheres_v(m),
{
    let mut world = HittableList::new();
    let checker = Checker::from_colors(fx_ratio(8, 25), rgb(200, 300, 100), rgb(900, 900, 900));
    proof {
        assert(crate::texture::texture_wf(*checker.even));
        assert(crate::texture::texture_wf(*checker.odd));
        assert(crate::texture::texture_wf(Texture::Checker(checker)));
    }
    let mat = Material::Lambertian(
        Lambertian::from_texture(Texture::Checker(checker)),
    );
    let ghost gmat = mat;
    world.add(Hittable::Sphere(Sphere::new(pt(0, -10, 0), fx_from_int(10), mat.clone())));
    world.add(Hittable::Sphere(Sphere::new(pt(0, 10, 0), fx_from_int(10), mat)));
    proof {
        assert(is_checkered_matte(gmat));
        assert(Hittable::HittableList(world)->HittableList_0.objects@ =~= two_checkered_spheres_v(
            gmat,
        ));
    }
    Hittable::HittableList(world)
}

/// A globe wrapped in a raster texture.
pub fn earth(earth_texture: Image) -> (r: Hittable)
    requires
        image_wf(earth_texture),
    ensures
        hittable_wf(r),
        deterministic(r),
        r == Hittable::Sphere(
            sphere_v(
                pt_v(0, 0, 0),
                units_v(2),
                Material::Lambertian(Lambertian { tex: Texture::Image(earth_texture) }),
            ),
        ),
{
    let earth_surface = Material::Lambertian(
        Lambertian::from_texture(Texture::Image(earth_texture)),
    );
    Hittable::Sphere(Sphere::new(pt(0, 0, 0), fx_from_int(2), earth_surface))
}

/// The exact shape of the noise fixtures: the thousand-unit ground sphere
/// and the two-unit sphere above it, both diffuse over one shared texture.
pub open spec fn noise_spheres_v(tex: Texture) -> Seq<Hittable> {
    seq![
        Hittable::Sphere(
            sphere_v(pt_v(0, -1000, 0), units_v(1000), Material::Lambertian(Lambertian { tex })),
        ),
        Hittable::Sphere(
            sphere_v(pt_v(0, 2, 0), units_v(2), Material::Lambertian(Lambertian { tex })),
        ),
    ]
}

/// A large ground sphere and a small one, both in gradient noise.
pub fn perlin_spheres() -> (r: Hittable)
    ensures
        hittable_wf(r),
        deterministic(r),
        r matches Hittable::HittableList(l) && exists|tex: Texture|
            tex is Noise && tex->Noise_0.scale == 4 * FX_ONE && #[trigger] crate::texture::texture_wf(
                tex,
            ) && l.objects@ == noise_spheres_v(tex),
{
    let mut world = HittableList::new();
    let tex = Texture::Noise(Noise::new(4 * FX_ONE));
    let ghost gtex = tex;
    let per_mat = Material::Lambertian(Lambertian::from_texture(tex));
    world.add(
        Hittable::Sphere(Sphere::new(pt(0, -1000, 0), fx_from_int(1000), per_mat.clone())),
    );
    world.add(Hittable::Sphere(Sphere::new(pt(0, 2, 0), fx_from_int(2), per_mat)));
    proof {
        assert(crate::texture::texture_wf(gtex));
        assert(Hittable::HittableList(world)->HittableList_0.objects@ =~= noise_spheres_v(gtex));
    }
    Hittable::HittableList(world)
}

/// The same arrangement in turbulence.
pub fn turbulent_spheres() -> (r: Hittable)
    ensures
        hittable_wf(r),
        deterministic(r),
        r matches Hittable::HittableList(l) && exists|tex: Texture|
            tex is TurbNoise && tex->TurbNoise_0.scale == FX_ONE && tex->TurbNoise_0.depth == 7
                && #[trigger] crate::texture::texture_wf(tex) && l.objects@ == noise_spheres_v(
                tex,
            ),
{
    let mut world = HittableList::new();
    let tex = Texture::TurbNoise(TurbNoise::new(FX_ONE, 7));
    let ghost gtex = tex;
    let per_mat = Material::Lambertian(Lambertian::from_texture(tex));
    world.add(
        Hittable::Sphere(Sphere::new(pt(0, -1000, 0), fx_from_int(1000), per_mat.clone())),
    );
    world.add(Hittable::Sphere(Sphere::new(pt(0, 2, 0), fx_from_int(2), per_mat)));
    proof {
        assert(crate::texture::texture_wf(gtex));
        assert(Hittable::HittableList(world)->HittableList_0.objects@ =~= noise_spheres_v(gtex));
    }
    Hittable::HittableList(world)
}

/// The same arrangement in marble.
pub fn marble_spheres() -> (r: Hittable)
    ensures
        hittable_wf(r),
        deterministic(r),
        r matches Hittable::HittableList(l) && exists|tex: Texture|
            tex is Marble && tex->Marble_0.scale == 4 * FX_ONE && tex->Marble_0.depth == 7
                && #[trigger] crate::texture::texture_wf(tex) && l.objects@ == noise_spheres_v(
                tex,
            ),
{
    let mut world = HittableList::new();
    let tex = Texture::Marble(MarbleNoise::new(4 * FX_ONE, 7));
    let ghost gtex = tex;
    let per_mat = Material::Lambertian(Lambertian::from_texture(tex));
    world.add(
        Hittable::Sphere(Sphere::new(pt(0, -1000, 0), fx_from_int(1000), per_mat.clone())),
    );
    world.add(Hittable::Sphere(Sphere::new(pt(0, 2, 0), fx_from_int(2), per_mat)));
    proof {
        assert(crate::texture::texture_wf(gtex));
        assert(Hittable::HittableList(world)->HittableList_0.objects@ =~= noise_spheres_v(gtex));
    }
    Hittable::HittableList(world)
}

/// Five colored quads facing the camera.
/// The exact contents of the quad wall: five colored quads, left, back,
/// right, top and bottom.
pub open spec fn quads_v() -> Seq<Hittable> {
    seq![
        Hittable::Quad(
            quad_v(pt_v(-3, -2, 5), pt_v(0, 0, -4), pt_v(0, 4, 0), matte_v(rgb_v(1000, 200, 200))),
        ),
        Hittable::Quad(
            quad_v(pt_v(-2, -2, 0), pt_v(4, 0, 0), pt_v(0, 4, 0), matte_v(rgb_v(200, 1000, 200))),
        ),
        Hittable::Quad(
            quad_v(pt_v(3, -2, 1), pt_v(0, 0, 4), pt_v(0, 4, 0), matte_v(rgb_v(200, 200, 1000))),
        ),
        Hittable::Quad(
            quad_v(pt_v(-2, 3, 1), pt_v(4, 0, 0), pt_v(0, 0, 4), matte_v(rgb_v(1000, 500, 0))),
        ),
        Hittable::Quad(
            quad_v(pt_v(-2, -3, 5), pt_v(4, 0, 0), pt_v(0, 0, -4), matte_v(rgb_v(200, 800, 800))),
        ),
    ]
}

pub fn quads() -> (r: Hittable)
    ensures
        hittable_wf(r),
        deterministic(r),
        r matches Hittable::HittableList(l) && l.objects@ == quads_v(),
{
    let mut world = HittableList::new();
    let left_red = Material::Lambertian(Lambertian::new(rgb(1000, 200, 200)));
    let back_green = Material::Lambertian(Lambertian::new(rgb(200, 1000, 200)));
    let right_blue = Material::Lambertian(Lambertian::new(rgb(200, 200, 1000)));
    let top_orange = Material::Lambertian(Lambertian::new(rgb(1000, 500, 0)));
    let bottom_teal = Material::Lambertian(Lambertian::new(rgb(200, 800, 800)));
    world.add(Hittable::Quad(Quad::new(pt(-3, -2, 5), pt(0, 0, -4), pt(0, 4, 0), left_red)));
    world.add(Hittable::Quad(Quad::new(pt(-2, -2, 0), pt(4, 0, 0), pt(0, 4, 0), back_green)));
    world.add(Hittable::Quad(Quad::new(pt(3, -2, 1), pt(0, 0, 4), pt(0, 4, 0), right_blue)));
    world.add(Hittable::Quad(Quad::new(pt(-2, 3, 1), pt(4, 0, 0), pt(0, 0, 4), top_orange)));
    world.add(Hittable::Quad(Quad::new(pt(-2, -3, 5), pt(4, 0, 0), pt(0, 0, -4), bottom_teal)));
    proof {
        assert(Hittable::HittableList(world)->HittableList_0.objects@ =~= quads_v());
    }
    Hittable::HittableList(world)
}

/// The exact contents of the lit scene for a given turbulence texture: a
/// red mirror ground, the turbulent sphere, a cyan quad light overhead and a
/// bright sphere light behind.
pub open spec fn symbol_v(tex: Texture) -> Seq<Hittable> {
    seq![
        Hittable::Sphere(
            sphere_v(
                pt_v(0, -1000, 0),
                units_v(1000),
                Material::Metal(Metal { albedo: rgb_v(1000, 0, 0), fuzz: 0 }),
            ),
        ),
        Hittable::Sphere(sphere_v(pt_v(0, 2, 0), units_v(2), Material::Lambertian(Lambertian { tex }))),
        Hittable::Quad(
            quad_v(
                pt_v(3, 10, 3),
                pt_v(-6, 0, 0),
                pt_v(0, 0, -6),
                glow_v(Color { r: 0, g: units_v(2), b: units_v(8) }),
            ),
        ),
        Hittable::Sphere(
            sphere_v(
                Point3 { x: units_v(-5), y: units_v(2), z: ratio_v(-15, 13) },
                ratio_v(5, 2),
                glow_v(Color { r: units_v(4), g: units_v(4), b: units_v(4) }),
            ),
        ),
    ]
}

/// A lit scene: a mirror ground, a turbulent sphere, a quad light overhead
/// and a bright sphere light behind.
pub fn symbol() -> (r: Hittable)
    ensures
        hittable_wf(r),
        deterministic(r),
        r matches Hittable::HittableList(l) && exists|tex: Texture|
            tex is TurbNoise && tex->TurbNoise_0.scale == FX_ONE && tex->TurbNoise_0.depth == 7
                && #[trigger] crate::texture::texture_wf(tex) && l.objects@ == symbol_v(tex),
{
    let mut world = HittableList::new();
    world.add(
        Hittable::Sphere(
            Sphere::new(
                pt(0, -1000, 0),
                fx_from_int(1000),
                Material::Metal(Metal::new(rgb(1000, 0, 0), 0)),
            ),
        ),
    );
    let tex = Texture::TurbNoise(TurbNoise::new(FX_ONE, 7));
    let ghost gtex = tex;
    world.add(
        Hittable::Sphere(
            Sphere::new(
                pt(0, 2, 0),
                fx_from_int(2),
                Material::Lambertian(Lambertian::from_texture(tex)),
            ),
        ),
    );
    let diff_light = Material::DiffuseLight(
        DiffuseLight::new(Color::new(0, 2 * FX_ONE, 8 * FX_ONE)),
    );
    world.add(
        Hittable::Quad(Quad::new(pt(3, 10, 3), pt(-6, 0, 0), pt(0, 0, -6), diff_light)),
    );
    let sphere_light = Material::DiffuseLight(
        DiffuseLight::new(Color::new(4 * FX_ONE, 4 * FX_ONE, 4 * FX_ONE)),
    );
    world.add(
        Hittable::Sphere(
            Sphere::new(
                Point3::new(fx_from_int(-5), fx_from_int(2), fx_ratio(-15, 13)),
                fx_ratio(5, 2),
                sphere_light,
            ),
        ),
    );
    proof {
        assert(crate::texture::texture_wf(gtex));
        assert(Hittable::HittableList(world)->HittableList_0.objects@ =~= symbol_v(gtex));
    }
    Hittable::HittableList(world)
}

/// The six walls of the enclosed room: green and red sides, a ceiling light
/// of the given placement and glow, and three white faces.
pub open spec fn cornell_walls_v(light_q: Point3, light_u: Point3, light_v: Point3, glow: Color) -> Seq<Hittable> {
    let white = matte_v(rgb_v(730, 730, 730));
    seq![
        Hittable::Quad(
            quad_v(pt_v(555, 0, 0), pt_v(0, 555, 0), pt_v(0, 0, 555), matte_v(rgb_v(120, 450, 150))),
        ),
        Hittable::Quad(
            quad_v(pt_v(0, 0, 0), pt_v(0, 555, 0), pt_v(0, 0, 555), matte_v(rgb_v(650, 50, 50))),
        ),
        Hittable::Quad(quad_v(light_q, light_u, light_v, glow_v(glow))),
        Hittable::Quad(quad_v(pt_v(0, 0, 0), pt_v(555, 0, 0), pt_v(0, 0, 555), white)),
        Hittable::Quad(quad_v(pt_v(555, 555, 555), pt_v(-555, 0, 0), pt_v(0, 0, -555), white)),
        Hittable::Quad(quad_v(pt_v(0, 0, 555), pt_v(555, 0, 0), pt_v(0, 555, 0), white)),
    ]
}

/// Whether a primitive is one of the room's blocks: the six faces over the
/// origin and `extent`, turned about the y axis by `angle` fixed-point
/// degrees and shifted by `offset`, with both cached boxes as the
/// constructors compute them.
pub open spec fn is_block(h: Hittable, extent: Point3, mat: Material, angle: i64, offset: Point3) -> bool {
    &&& h is Translate
    &&& {
        let t = h->Translate_0;
        &&& t.offset == offset
        &&& t.bbox == translated_box_v(bounding_box_v(*t.object), offset)
        &&& (*t.object) is YRotate
        &&& {
            let y = (*t.object)->YRotate_0;
            &&& y.sin_theta == fx_sin_v(radians_v(angle as int))
            &&& y.cos_theta == fx_cos_v(radians_v(angle as int))
            &&& y.bbox == rotated_box_v(
                bounding_box_v(*y.object),
                y.sin_theta as int,
                y.cos_theta as int,
            )
            &&& (*y.object) is HittableList
            &&& (*y.object)->HittableList_0.objects@ == box_faces_v(pt_v(0, 0, 0), extent, mat)
        }
    }
}

/// Whether a primitive is one of the smoky room's volumes: a participating
/// medium of one-hundredth density and the given albedo, bounded by a block.
pub open spec fn is_smoke_block(
    h: Hittable,
    extent: Point3,
    mat: Material,
    angle: i64,
    offset: Point3,
    albedo: Color,
) -> bool {
    &&& h is ConstantMedium
    &&& {
        let m = h->ConstantMedium_0;
        &&& m.inv_density == crate::fixed::fx_div_v(FX_ONE as int, ratio_v(1, 100) as int) as i64
        &&& m.phase_function == Material::Isotropic(
            Isotropic { tex: Texture::SolidColor(SolidColor { albedo }) },
        )
        &&& is_block(*m.boundary, extent, mat, angle, offset)
    }
}

/// The walls, light and two rotated boxes of the classic enclosed room.
#[verifier::rlimit(100)]
#[verifier::spinoff_prover]
pub fn cornell_box() -> (r: Hittable)
    ensures
        hittable_wf(r),
        deterministic(r),
        r matches Hittable::HittableList(l) && {
            &&& l.objects@.len() == 8
            &&& l.objects@.subrange(0, 6) == cornell_walls_v(
                pt_v(343, 554, 332),
                pt_v(-130, 0, 0),
                pt_v(0, 0, -105),
                Color { r: units_v(15), g: units_v(15), b: units_v(15) },
            )
            &&& is_block(
                l.objects@[6],
                pt_v(165, 330, 165),
                matte_v(rgb_v(730, 730, 730)),
                (15 * FX_ONE) as i64,
                pt_v(265, 0, 295),
            )
            &&& is_block(
                l.objects@[7],
                pt_v(165, 165, 165),
                matte_v(rgb_v(730, 730, 730)),
                ((-18) * FX_ONE) as i64,
                pt_v(130, 0, 65),
            )
        },
{
    let mut world = HittableList::new();
    let red = Material::Lambertian(Lambertian::new(rgb(650, 50, 50)));
    let white = Material::Lambertian(Lambertian::new(rgb(730, 730, 730)));
    let green = Material::Lambertian(Lambertian::new(rgb(120, 450, 150)));
    let light = Material::DiffuseLight(
        DiffuseLight::new(Color::new(15 * FX_ONE, 15 * FX_ONE, 15 * FX_ONE)),
    );
    world.add(Hittable::Quad(Quad::new(pt(555, 0, 0), pt(0, 555, 0), pt(0, 0, 555), green)));
    world.add(Hittable::Quad(Quad::new(pt(0, 0, 0), pt(0, 555, 0), pt(0, 0, 555), red)));
    world.add(
        Hittable::Quad(Quad::new(pt(343, 554, 332), pt(-130, 0, 0), pt(0, 0, -105), light)),
    );
    world.add(
        Hittable::Quad(Quad::new(pt(0, 0, 0), pt(555, 0, 0), pt(0, 0, 555), white.clone())),
    );
    world.add(
        Hittable::Quad(
            Quad::new(pt(555, 555, 555), pt(-555, 0, 0), pt(0, 0, -555), white.clone()),
        ),
    );
    world.add(
        Hittable::Quad(Quad::new(pt(0, 0, 555), pt(555, 0, 0), pt(0, 555, 0), white.clone())),
    );
    let box1 = cornell_box_block(pt(165, 330, 165), white.clone(), 15 * FX_ONE, pt(265, 0, 295));
    world.add(box1);
    let box2 = cornell_box_block(pt(165, 165, 165), white, (-18) * FX_ONE, pt(130, 0, 65));
    world.add(box2);
    proof {
        let l = Hittable::HittableList(world)->HittableList_0;
        let walls = cornell_walls_v(
            pt_v(343, 554, 332),
            pt_v(-130, 0, 0),
            pt_v(0, 0, -105),
            Color { r: units_v(15), g: units_v(15), b: units_v(15) },
        );
        assert(l.objects@.len() == 8);
        assert(l.objects@.subrange(0, 6).len() == 6);
        assert(l.objects@[0] == walls[0]);
        assert(l.objects@[1] == walls[1]);
        assert(l.objects@[2] == walls[2]);
        assert(l.objects@[3] == walls[3]);
        assert(l.objects@[4] == walls[4]);
        assert(l.objects@[5] == walls[5]);
        assert(l.objects@.subrange(0, 6) =~= walls);
    }
    Hittable::HittableList(world)
}

/// A box from the origin to `extent`, rotated about the y axis and shifted:
/// the building block of the enclosed-room scenes.
#[verifier::rlimit(100)]
fn cornell_box_block(extent: Point3, mat: Material, angle: i64, offset: Point3) -> (r: Hittable)
    requires
        material_wf(mat),
    ensures
        hittable_wf(r),
        deterministic(r),
        is_block(r, extent, mat, angle, offset),
{
    let sides = Quad::new_box(pt(0, 0, 0), extent, mat);
    proof {
        crate::hittable::lemma_list_wf_char(sides.objects@);
        crate::hittable::lemma_det_seq_char(sides.objects@);
    }
    let boxed = Hittable::HittableList(sides);
    proof {
        assert(hittable_wf(boxed));
        assert(deterministic(boxed));
    }
    let rotated = YRotate::new(boxed, angle);
    let wrapped = Hittable::YRotate(rotated);
    proof {
        assert(hittable_wf(wrapped));
        assert(deterministic(wrapped));
    }
    let shifted = Translate::new(wrapped, offset);
    let placed = Hittable::Translate(shifted);
    proof {
        assert(hittable_wf(placed));
        assert(deterministic(placed));
    }
    placed
}

/// The enclosed room with the boxes replaced by smoke and fog volumes.
#[verifier::rlimit(100)]
#[verifier::spinoff_prover]
pub fn cornell_smoke() -> (r: Hittable)
    ensures
        hittable_wf(r),
        r matches Hittable::HittableList(l) && {
            &&& l.objects@.len() == 8
            &&& l.objects@.subrange(0, 6) == cornell_walls_v(
                pt_v(113, 554, 127),
                pt_v(330, 0, 0),
                pt_v(0, 0, 305),
                Color { r: units_v(7), g: units_v(7), b: units_v(7) },
            )
            &&& is_smoke_block(
                l.objects@[6],
                pt_v(165, 330, 165),
                matte_v(rgb_v(730, 730, 730)),
                (15 * FX_ONE) as i64,
                pt_v(265, 0, 295),
                Color { r: 0i64, g: 0i64, b: 0i64 },
            )
            &&& is_smoke_block(
                l.objects@[7],
                pt_v(165, 165, 165),
                matte_v(rgb_v(730, 730, 730)),
                ((-18) * FX_ONE) as i64,
                pt_v(130, 0, 65),
                Color { r: FX_ONE, g: FX_ONE, b: FX_ONE },
            )
        },
{
    let mut world = HittableList::new();
    let red = Material::Lambertian(Lambertian::new(rgb(650, 50, 50)));
    let white = Material::Lambertian(Lambertian::new(rgb(730, 730, 730)));
    let green = Material::Lambertian(Lambertian::new(rgb(120, 450, 150)));
    let light = Material::DiffuseLight(
        DiffuseLight::new(Color::new(7 * FX_ONE, 7 * FX_ONE, 7 * FX_ONE)),
    );
    world.add(Hittable::Quad(Quad::new(pt(555, 0, 0), pt(0, 555, 0), pt(0, 0, 555), green)));
    world.add(Hittable::Quad(Quad::new(pt(0, 0, 0), pt(0, 555, 0), pt(0, 0, 555), red)));
    world.add(
        Hittable::Quad(Quad::new(pt(113, 554, 127), pt(330, 0, 0), pt(0, 0, 305), light)),
    );
    world.add(
        Hittable::Quad(Quad::new(pt(0, 0, 0), pt(555, 0, 0), pt(0, 0, 555), white.clone())),
    );
    world.add(
        Hittable::Quad(
            Quad::new(pt(555, 555, 555), pt(-555, 0, 0), pt(0, 0, -555), white.clone()),
        ),
    );
    world.add(
        Hittable::Quad(Quad::new(pt(0, 0, 555), pt(555, 0, 0), pt(0, 555, 0), white.clone())),
    );
    let box1 = cornell_box_block(pt(165, 330, 165), white.clone(), 15 * FX_ONE, pt(265, 0, 295));
    world.add(
        Hittable::ConstantMedium(ConstantMedium::new(box1, fx_ratio(1, 100), Color::black())),
    );
    let box2 = cornell_box_block(pt(165, 165, 165), white, (-18) * FX_ONE, pt(130, 0, 65));
    world.add(
        Hittable::ConstantMedium(ConstantMedium::new(box2, fx_ratio(1, 100), Color::white())),
    );
    proof {
        let l = Hittable::HittableList(world)->HittableList_0;
        let walls = cornell_walls_v(
            pt_v(113, 554, 127),
            pt_v(330, 0, 0),
            pt_v(0, 0, 305),
            Color { r: units_v(7), g: units_v(7), b: units_v(7) },
        );
        assert(l.objects@.len() == 8);
        assert(l.objects@.subrange(0, 6).len() == 6);
        assert(l.objects@[0] == walls[0]);
        assert(l.objects@[1] == walls[1]);
        assert(l.objects@[2] == walls[2]);
        assert(l.objects@[3] == walls[3]);
        assert(l.objects@[4] == walls[4]);
        assert(l.objects@[5] == walls[5]);
        assert(l.objects@.subrange(0, 6) =~= walls);
    }
    Hittable::HittableList(world)
}

/// A camera at the origin looking down the negative z axis.
pub fn unmoved_camera() -> (r: Camera)
    ensures
        r.image_width == 480,
        r.samples_per_pixel == 100,
        r.max_depth == 50,
        r.background is None,
        r.look_from == (Point3 { x: 0i64, y: 0i64, z: 0i64 }),
        r.defocus_angle == 0,
{
    Camera {
        aspect_ratio: fx_ratio(16, 9),
        image_width: 480,
        samples_per_pixel: 100,
        max_depth: 50,
        vfov: 90 * FX_ONE,
        look_from: pt(0, 0, 0),
        look_at: pt(0, 0, -1),
        v_up: pt(0, 1, 0),
        defocus_angle: 0,
        focus_dist: FX_ONE,
        background: None,
    }
}

/// A camera up and to the side of the scene.
pub fn far_camera() -> (r: Camera)
    ensures
        r.image_width == 480,
        r.background is None,
{
    Camera {
        aspect_ratio: fx_ratio(16, 9),
        image_width: 480,
        samples_per_pixel: 100,
        max_depth: 50,
        vfov: 90 * FX_ONE,
        look_from: pt(-2, 2, 1),
        look_at: pt(0, 0, -1),
        v_up: pt(0, 1, 0),
        defocus_angle: 0,
        focus_dist: fx_mul(2 * FX_ONE, crate::fmath::fx_sqrt(fx_from_int(3))),
        background: None,
    }
}

/// The far camera zoomed in.
pub fn far_camera_zoomed() -> (r: Camera)
    ensures
        r.image_width == 480,
        r.background is None,
{
    Camera { vfov: 20 * FX_ONE, ..far_camera() }
}

/// The zoomed far camera with a wide aperture.
pub fn far_camera_zoomed_large_aperture() -> (r: Camera)
    ensures
        r.image_width == 480,
        r.background is None,
{
    Camera { vfov: 20 * FX_ONE, defocus_angle: 10 * FX_ONE, ..far_camera() }
}

/// The camera of the random-sphere field.
pub fn random_spheres_camera() -> (r: Camera)
    ensures
        r.image_width == 1200,
        r.background is None,
{
    Camera {
        aspect_ratio: fx_ratio(16, 9),
        image_width: 1200,
        samples_per_pixel: 500,
        max_depth: 50,
        vfov: 20 * FX_ONE,
        look_from: pt(13, 2, 3),
        look_at: pt(0, 0, 0),
        v_up: pt(0, 1, 0),
        defocus_angle: fx_ratio(6, 10),
        focus_dist: 10 * FX_ONE,
        background: None,
    }
}

/// The same placement at preview quality.
pub fn random_spheres_camera_fast() -> (r: Camera)
    ensures
        r.image_width == 400,
        r.background is None,
{
    Camera { image_width: 400, samples_per_pixel: 100, ..random_spheres_camera() }
}

/// The camera of the two-sphere scenes.
pub fn two_spheres_camera() -> (r: Camera)
    ensures
        r.image_width == 400,
        r.background is None,
{
    Camera {
        aspect_ratio: fx_ratio(16, 9),
        image_width: 400,
        samples_per_pixel: 100,
        max_depth: 50,
        vfov: 20 * FX_ONE,
        look_from: pt(13, 2, 3),
        look_at: pt(0, 0, 0),
        v_up: pt(0, 1, 0),
        defocus_angle: 0,
        focus_dist: 10 * FX_ONE,
        background: None,
    }
}

/// The camera looking at the globe.
pub fn earth_camera() -> (r: Camera)
    ensures
        r.image_width == 400,
        r.background is None,
{
    Camera {
        aspect_ratio: fx_ratio(16, 9),
        image_width: 400,
        samples_per_pixel: 100,
        max_depth: 50,
        vfov: 20 * FX_ONE,
        look_from: pt(0, 0, 12),
        look_at: pt(0, 0, 0),
        v_up: pt(0, 1, 0),
        defocus_angle: 0,
        focus_dist: 10 * FX_ONE,
        background: None,
    }
}

/// The camera facing the quad wall.
pub fn quads_camera() -> (r: Camera)
    ensures
        r.image_width == 400,
        r.background is None,
{
    Camera {
        aspect_ratio: FX_ONE,
        image_width: 400,
        samples_per_pixel: 100,
        max_depth: 50,
        vfov: 80 * FX_ONE,
        look_from: pt(0, 0, 9),
        look_at: pt(0, 0, 0),
        v_up: pt(0, 1, 0),
        defocus_angle: 0,
        focus_dist: 10 * FX_ONE,
        background: None,
    }
}

/// The camera of the lit turbulence scene, over a dark background.
pub fn symbol_camera() -> (r: Camera)
    ensures
        r.image_width == 400,
        r.background == Some(Color { r: 0i64, g: 0i64, b: 0i64 }),
{
    Camera {
        aspect_ratio: fx_ratio(16, 9),
        image_width: 400,
        samples_per_pixel: 100,
        max_depth: 50,
        vfov: 20 * FX_ONE,
        look_from: pt(26, 3, 6),
        look_at: pt(0, 2, 0),
        v_up: pt(0, 1, 0),
        defocus_angle: 0,
        focus_dist: 10 * FX_ONE,
        background: Some(Color::black()),
    }
}

/// The camera of the enclosed-room scenes.
pub fn cornell_box_cam(image_width: u32, samples_per_pixel: u32, max_depth: u32) -> (r: Camera)
    ensures
        r.image_width == image_width,
        r.samples_per_pixel == samples_per_pixel,
        r.max_depth == max_depth,
        r.background == Some(Color { r: 0i64, g: 0i64, b: 0i64 }),
{
    Camera {
        aspect_ratio: FX_ONE,
        image_width,
        samples_per_pixel,
        max_depth,
        vfov: 40 * FX_ONE,
        look_from: pt(278, 278, -800),
        look_at: pt(278, 278, 0),
        v_up: pt(0, 1, 0),
        defocus_angle: 0,
        focus_dist: 10 * FX_ONE,
        background: Some(Color::black()),
    }
}

/// The camera of the final showcase scene.
pub fn book2_final_camera(image_width: u32, samples_per_pixel: u32, max_depth: u32) -> (r: Camera)
    ensures
        r.image_width == image_width,
        r.samples_per_pixel == samples_per_pixel,
        r.max_depth == max_depth,
        r.background == Some(Color { r: 0i64, g: 0i64, b: 0i64 }),
{
    Camera {
        aspect_ratio: FX_ONE,
        image_width,
        samples_per_pixel,
        max_depth,
        vfov: 40 * FX_ONE,
        look_from: pt(478, 278, -600),
        look_at: pt(278, 278, 0),
        v_up: pt(0, 1, 0),
        defocus_angle: 0,
        focus_dist: 10 * FX_ONE,
        background: Some(Color::black()),
    }
}

} // verus!
