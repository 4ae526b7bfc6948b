//! The camera and the Monte Carlo integrator.
//!
//! `Camera` is the user-facing configuration; `CameraCore::initialize` turns
//! it into the precomputed viewport frame, exactly as the spec-level mirror
//! `camera_core_v` states. `ray_color` is the recursive radiance estimator:
//! it terminates for every scene because the bounce budget strictly
//! decreases, and an exhausted budget contributes black.

use vstd::prelude::*;
use crate::color::{color_add_v, color_mul_v, color_scale_v, Color};
use crate::fixed::{
    fx_add, fx_add_v, fx_div, fx_div_v, fx_from_int, fx_mul, fx_mul_v, sat, FX_HALF, FX_HUGE,
    FX_ONE,
};
use crate::fmath::{fx_cos, fx_cos_v, fx_floor_int, fx_sin, fx_sin_v, FX_PI};
use crate::hittable::{deterministic, hit_v, hittable_wf, Hittable};
use crate::interval::Interval;
use crate::material::{emitted_v, scatter_ens};
use crate::ray::Ray;
use crate::rng::random_half_fx;
use crate::vec3::{
    vec_add_v, vec_cross_v, vec_div_scalar_v, vec_neg_v, vec_scale_v, vec_sub_v, vec_unit_v,
    Point3, Vec3,
};

verus! {

/// Scattered rays start this far along, so that a bounce does not re-hit the
/// surface it just left.
pub const FX_SURFACE_EPS: i64 = 66;

/// The camera configuration a scene hands to the renderer.
pub struct Camera {
    /// Ratio of image width over height.
    pub aspect_ratio: i64,
    /// Rendered image width in pixels.
    pub image_width: u32,
    /// Number of samples for each pixel.
    pub samples_per_pixel: u32,
    /// Maximum number of ray bounces into the scene.
    pub max_depth: u32,
    /// Vertical field of view, in fixed-point degrees.
    pub vfov: i64,
    /// The point the camera looks from.
    pub look_from: Point3,
    /// The point the camera looks at.
    pub look_at: Point3,
    /// The camera-relative up direction.
    pub v_up: Vec3,
    /// Variation angle of rays through each pixel, in fixed-point degrees.
    pub defocus_angle: i64,
    /// Distance from `look_from` to the plane of perfect focus.
    pub focus_dist: i64,
    /// A flat background color; the sky gradient when absent.
    pub background: Option<Color>,
}

/// The precomputed viewport frame the sampling loop walks.
pub struct CameraCore {
    pub image_width: u32,
    pub samples_per_pixel: u32,
    pub max_depth: u32,
    pub image_height: u32,
    /// The scale applied to a sum of samples: one over the sample count.
    pub pixel_samples_scale: i64,
    pub center: Point3,
    /// Where the center of pixel `(0, 0)` lies.
    pub pixel_00_loc: Point3,
    /// The offset from one pixel to the next to the right.
    pub pixel_delta_u: Vec3,
    /// The offset from one pixel to the next below.
    pub pixel_delta_v: Vec3,
    pub u: Vec3,
    pub v: Vec3,
    pub w: Vec3,
    pub defocus_angle: i64,
    pub defocus_disk_u: Vec3,
    pub defocus_disk_v: Vec3,
    pub background: Option<Color>,
}

/// Degrees to fixed-point radians.
pub open spec fn to_radians_v(angle: int) -> int {
    fx_div_v(fx_mul_v(angle, FX_PI as int), sat(180 * (FX_ONE as int)))
}

/// The image height an aspect ratio yields, floored at one and capped so it
/// casts to `u32`.
pub open spec fn image_height_v(image_width: int, aspect_ratio: int) -> int {
    let h = fx_div_v(sat(image_width * (FX_ONE as int)), aspect_ratio) / (FX_ONE as int);
    if h < 1 {
        1
    } else if h > 0x7fff_ffff {
        0x7fff_ffff
    } else {
        h
    }
}

/// The full viewport frame a camera configuration determines.
pub open spec fn camera_core_v(params: Camera) -> CameraCore {
    let image_height = image_height_v(params.image_width as int, params.aspect_ratio as int);
    let pixel_samples_scale = fx_div_v(
        FX_ONE as int,
        sat(params.samples_per_pixel * (FX_ONE as int)),
    );
    let center = params.look_from;
    let theta = to_radians_v(params.vfov as int);
    let half_theta = fx_div_v(theta, 2 * (FX_ONE as int));
    let h = fx_div_v(fx_sin_v(half_theta), fx_cos_v(half_theta));
    let viewport_height = fx_mul_v(fx_mul_v(2 * (FX_ONE as int), h), params.focus_dist as int);
    let viewport_width = fx_mul_v(
        viewport_height,
        fx_div_v(
            sat(params.image_width * (FX_ONE as int)),
            sat(image_height * (FX_ONE as int)),
        ),
    );
    let w = vec_unit_v(vec_sub_v(params.look_from, params.look_at));
    let u = vec_unit_v(vec_cross_v(params.v_up, w));
    let v = vec_cross_v(w, u);
    let viewport_u = vec_scale_v(u, viewport_width);
    let viewport_v = vec_scale_v(vec_neg_v(v), viewport_height);
    let pixel_delta_u = vec_div_scalar_v(viewport_u, sat(params.image_width * (FX_ONE as int)));
    let pixel_delta_v = vec_div_scalar_v(viewport_v, sat(image_height * (FX_ONE as int)));
    let viewport_upper_left = vec_sub_v(
        vec_sub_v(
            vec_sub_v(center, vec_scale_v(w, params.focus_dist as int)),
            vec_div_scalar_v(viewport_u, 2 * (FX_ONE as int)),
        ),
        vec_div_scalar_v(viewport_v, 2 * (FX_ONE as int)),
    );
    let pixel_00_loc = vec_add_v(
        viewport_upper_left,
        vec_scale_v(vec_add_v(pixel_delta_u, pixel_delta_v), FX_HALF as int),
    );
    let half_defocus = fx_div_v(params.defocus_angle as int, 2 * (FX_ONE as int));
    let defocus_rad = to_radians_v(half_defocus);
    let defocus_radius = fx_mul_v(
        params.focus_dist as int,
        fx_div_v(fx_sin_v(defocus_rad), fx_cos_v(defocus_rad)),
    );
    CameraCore {
        image_width: params.image_width,
        samples_per_pixel: params.samples_per_pixel,
        max_depth: params.max_depth,
        image_height: image_height as u32,
        pixel_samples_scale: pixel_samples_scale as i64,
        center,
        pixel_00_loc,
        pixel_delta_u,
        pixel_delta_v,
        u,
        v,
        w,
        defocus_angle: params.defocus_angle,
        defocus_disk_u: vec_scale_v(u, defocus_radius),
        defocus_disk_v: vec_scale_v(v, defocus_radius),
        background: params.background,
    }
}

/// The sky gradient a missed ray returns: white blended toward light blue by
/// the vertical component of the unit direction.
pub open spec fn background_gradient_v(r: Ray) -> Color {
    let unit_direction = vec_unit_v(r.dir);
    let a = fx_mul_v(FX_HALF as int, fx_add_v(unit_direction.y as int, FX_ONE as int));
    color_add_v(
        color_scale_v(
            Color { r: FX_ONE, g: FX_ONE, b: FX_ONE },
            fx_add_v(FX_ONE as int, -a),
        ),
        color_scale_v(Color { r: FX_HALF, g: 45875, b: FX_ONE }, a),
    )
}

/// What a missed ray contributes: the flat background if one is set, else
/// the sky gradient.
pub open spec fn miss_color_v(background: Option<Color>, r: Ray) -> Color {
    match background {
        Some(c) => c,
        None => background_gradient_v(r),
    }
}

/// The radiance relation the integrator satisfies over a deterministic
/// world: an exhausted budget gives black; a miss gives the background; a
/// hit gives the emitted light plus, for some scatter outcome the
/// material's contract admits, the attenuated radiance of a bounce that
/// itself satisfies the relation one step down — or the emitted light alone
/// when that outcome is absorption.
pub open spec fn ray_color_rel(
    background: Option<Color>,
    r: Ray,
    depth: int,
    world: Hittable,
    res: Color,
) -> bool
    decreases depth,
{
    if depth <= 0 {
        res == (Color { r: 0i64, g: 0i64, b: 0i64 })
    } else {
        match hit_v(world, r, Interval { min: FX_SURFACE_EPS, max: FX_HUGE }) {
            None => res == miss_color_v(background, r),
            Some(rec) => {
                let em = emitted_v(rec.mat, rec.u as int, rec.v as int, rec.p);
                exists|sc: Option<(Color, Ray)>|
                    #[trigger] scatter_ens(rec.mat, r, rec, sc) && match sc {
                        None => res == em,
                        Some(pair) => exists|bounce: Color|
                            ray_color_rel(background, pair.1, depth - 1, world, bounce) && res
                                == color_add_v(em, color_mul_v(pair.0, bounce)),
                    }
            },
        }
    }
}

/// Degrees to fixed-point radians.
fn to_radians(angle: i64) -> (r: i64)
    ensures
        r == to_radians_v(angle as int),
{
    fx_div(fx_mul(angle, FX_PI), fx_from_int(180))
}

/// The tangent as sine over cosine.
fn fx_tan(x: i64) -> (r: i64)
    ensures
        r == fx_div_v(fx_sin_v(x as int), fx_cos_v(x as int)),
{
    fx_div(fx_sin(x), fx_cos(x))
}

/// A random offset within one pixel: both planar components in
/// `[-1/2, 1/2)`.
pub fn sample_square() -> (r: Vec3)
    ensures
        -(FX_HALF as int) <= r.x < FX_HALF,
        -(FX_HALF as int) <= r.y < FX_HALF,
        r.z == 0,
{
    Vec3 { x: random_half_fx(), y: random_half_fx(), z: 0 }
}

impl CameraCore {
    /// Precompute the viewport frame from a camera configuration.
    pub fn initialize(params: &Camera) -> (r: CameraCore)
        ensures
            r == camera_core_v(*params),
    {
        let image_width = params.image_width;
        let samples_per_pixel = params.samples_per_pixel;
        let max_depth = params.max_depth;
        let hf = fx_floor_int(fx_div(fx_from_int(image_width as i64), params.aspect_ratio));
        let image_height: u32 = if hf < 1 {
            1
        } else if hf > 0x7fff_ffff {
            0x7fff_ffff
        } else {
            hf as u32
        };
        let pixel_samples_scale = fx_div(FX_ONE, fx_from_int(samples_per_pixel as i64));
        let center = params.look_from;
        let theta = to_radians(params.vfov);
        let h = fx_tan(fx_div(theta, 2 * FX_ONE));
        let viewport_height = fx_mul(fx_mul(2 * FX_ONE, h), params.focus_dist);
        let viewport_width = fx_mul(
            viewport_height,
            fx_div(fx_from_int(image_width as i64), fx_from_int(image_height as i64)),
        );
        let w = params.look_from.sub(params.look_at).unit_vector();
        let u = params.v_up.cross(w).unit_vector();
        let v = w.cross(u);
        let viewport_u = u.scale(viewport_width);
        let viewport_v = v.neg().scale(viewport_height);
        let pixel_delta_u = viewport_u.div_scalar(fx_from_int(image_width as i64));
        let pixel_delta_v = viewport_v.div_scalar(fx_from_int(image_height as i64));
        let viewport_upper_left = center.sub(w.scale(params.focus_dist)).sub(
            viewport_u.div_scalar(2 * FX_ONE),
        ).sub(viewport_v.div_scalar(2 * FX_ONE));
        let pixel_00_loc = viewport_upper_left.add(
            pixel_delta_u.add(pixel_delta_v).scale(FX_HALF),
        );
        let defocus_radius = fx_mul(
            params.focus_dist,
            fx_tan(to_radians(fx_div(params.defocus_angle, 2 * FX_ONE))),
        );
        let defocus_disk_u = u.scale(defocus_radius);
        let defocus_disk_v = v.scale(defocus_radius);
        CameraCore {
            image_width,
            samples_per_pixel,
            max_depth,
            image_height,
            pixel_samples_scale,
            center,
            pixel_00_loc,
            pixel_delta_u,
            pixel_delta_v,
            u,
            v,
            w,
            defocus_angle: params.defocus_angle,
            defocus_disk_u,
            defocus_disk_v,
            background: params.background,
        }
    }

    /// The camera ray toward pixel `(i, j)` for a given in-pixel offset and
    /// defocus-disk draw: the deterministic core of `get_ray`.
    pub fn get_ray_at(&self, i: u32, j: u32, offset: Vec3, disk: Vec3) -> (r: Ray)
        ensures
            r == get_ray_at_v(*self, i as int, j as int, offset, disk),
    {
        let pixel_sample = self.pixel_00_loc.add(
            self.pixel_delta_u.scale(fx_add(fx_from_int(i as i64), offset.x)),
        ).add(self.pixel_delta_v.scale(fx_add(fx_from_int(j as i64), offset.y)));
        let ray_origin = if self.defocus_angle <= 0 {
            self.center
        } else {
            self.center.add(self.defocus_disk_u.scale(disk.x)).add(
                self.defocus_disk_v.scale(disk.y),
            )
        };
        let ray_dir = pixel_sample.sub(ray_origin);
        Ray::new(ray_origin, ray_dir)
    }

    /// A camera ray toward pixel `(i, j)`, jittered within the pixel and, if
    /// the aperture is open, across the defocus disk: exactly the
    /// deterministic `get_ray_at_v` at some in-pixel offset and some draw
    /// inside the unit disk.
    pub fn get_ray(&self, i: u32, j: u32) -> (r: Ray)
        ensures
            r.time == 0,
            camera_ray_rel(*self, i as int, j as int, r),
    {
        let offset = sample_square();
        let disk = Vec3::random_in_unit_disk();
        let r = self.get_ray_at(i, j, offset, disk);
        proof {
            assert(r == get_ray_at_v(*self, i as int, j as int, offset, disk));
            assert(camera_ray_rel(*self, i as int, j as int, r));
        }
        r
    }

    /// One stochastic radiance sample of pixel `(i, j)`: the integrator at a
    /// fresh camera-ray draw. Over a deterministic world the sample
    /// satisfies the full per-sample relation.
    fn sample_once(&self, world: &Hittable, i: u32, j: u32) -> (c: Color)
        requires
            hittable_wf(*world),
        ensures
            deterministic(*world) ==> pixel_sample_rel(*self, *world, i as int, j as int, c),
    {
        let ray = self.get_ray(i, j);
        let c = self.ray_color(ray, self.max_depth, world);
        proof {
            if deterministic(*world) {
                assert(camera_ray_rel(*self, i as int, j as int, ray));
                assert(ray_color_rel(
                    self.background,
                    ray,
                    self.max_depth as int,
                    *world,
                    c,
                ));
                assert(pixel_sample_rel(*self, *world, i as int, j as int, c));
            }
        }
        c
    }

    /// The radiance carried back along a ray: the emitted light at a hit
    /// plus the attenuated radiance of the scattered bounce, bottoming out
    /// at the bounce budget, at an absorbed ray, or at the background.
    pub fn ray_color(&self, r: Ray, depth: u32, world: &Hittable) -> (res: Color)
        requires
            hittable_wf(*world),
        ensures
            depth == 0 ==> res == (Color { r: 0i64, g: 0i64, b: 0i64 }),
            depth > 0 && deterministic(*world) && hit_v(
                *world,
                r,
                Interval { min: FX_SURFACE_EPS, max: FX_HUGE },
            ) is None ==> res == miss_color_v(self.background, r),
            depth > 0 && deterministic(*world) && (hit_v(
                *world,
                r,
                Interval { min: FX_SURFACE_EPS, max: FX_HUGE },
            ) matches Some(rec) && rec.mat is DiffuseLight) ==> res == emitted_v(
                hit_v(*world, r, Interval { min: FX_SURFACE_EPS, max: FX_HUGE })->Some_0.mat,
                hit_v(*world, r, Interval { min: FX_SURFACE_EPS, max: FX_HUGE })->Some_0.u as int,
                hit_v(*world, r, Interval { min: FX_SURFACE_EPS, max: FX_HUGE })->Some_0.v as int,
                hit_v(*world, r, Interval { min: FX_SURFACE_EPS, max: FX_HUGE })->Some_0.p,
            ),
            deterministic(*world) ==> ray_color_rel(self.background, r, depth as int, *world, res),
        decreases depth,
    {
        if depth == 0 {
            return Color::black();
        }
        match world.hit(r, Interval::new(FX_SURFACE_EPS, FX_HUGE)) {
            Some(rec) => {
                let emitted = rec.mat.emitted(rec.u, rec.v, rec.p);
                let ghost grec = rec;
                match rec.mat.scatter(r, &rec) {
                    Some(pair) => {
                        let ghost gpair = pair;
                        let bounced = self.ray_color(pair.1, depth - 1, world);
                        let res = emitted.add(pair.0.mul(bounced));
                        proof {
                            if deterministic(*world) {
                                assert(scatter_ens(grec.mat, r, grec, Some(gpair)));
                                assert(ray_color_rel(
                                    self.background,
                                    gpair.1,
                                    depth - 1,
                                    *world,
                                    bounced,
                                ));
                            }
                        }
                        res
                    },
                    None => {
                        proof {
                            if deterministic(*world) {
                                assert(scatter_ens(grec.mat, r, grec, None::<(Color, Ray)>));
                            }
                        }
                        emitted
                    },
                }
            },
            None => {
                match self.background {
                    Some(c) => c,
                    None => {
                        let unit_direction = r.direction().unit_vector();
                        let a = fx_mul(FX_HALF, fx_add(unit_direction.y, FX_ONE));
                        Color::white().scale(fx_add(FX_ONE, -a)).add(
                            Color::new(FX_HALF, 45875, FX_ONE).scale(a),
                        )
                    },
                }
            },
        }
    }

    /// The averaged color of one pixel over the configured sample count: the
    /// sample scale times the fold of one sample color per configured draw,
    /// each sample being — over a deterministic world — the integrator's
    /// radiance at some admissible camera-ray draw of this pixel.
    #[verifier::rlimit(100)]
    #[verifier::spinoff_prover]
    pub fn render_pixel(&self, world: &Hittable, i: u32, j: u32) -> (res: Color)
        requires
            hittable_wf(*world),
        ensures
            pixel_value_rel(*self, *world, i as int, j as int, res),
    {
        let mut acc = Color::black();
        let mut s: u32 = 0;
        let ghost mut samples: Seq<Color> = Seq::empty();
        while s < self.samples_per_pixel
            invariant
                hittable_wf(*world),
                s <= self.samples_per_pixel,
                samples.len() == s,
                acc == sample_fold_v(samples),
                deterministic(*world) ==> forall|k: int|
                    0 <= k < samples.len() ==> pixel_sample_rel(
                        *self,
                        *world,
                        i as int,
                        j as int,
                        #[trigger] samples[k],
                    ),
            decreases self.samples_per_pixel - s,
        {
            let sample = self.sample_once(world, i, j);
            acc = acc.add(sample);
            proof {
                let prev = samples;
                samples = samples.push(sample);
                assert(samples.drop_last() =~= prev);
                assert(samples.last() == sample);
                assert(sample_fold_v(samples) == color_add_v(sample_fold_v(prev), sample));
                if deterministic(*world) {
                    assert forall|k: int| 0 <= k < samples.len() implies pixel_sample_rel(
                        *self,
                        *world,
                        i as int,
                        j as int,
                        #[trigger] samples[k],
                    ) by {
                        if k < samples.len() - 1 {
                            assert(samples[k] == prev[k]);
                        } else {
                            assert(samples[k] == sample);
                        }
                    }
                }
            }
            s = s + 1;
        }
        let res = acc.scale(self.pixel_samples_scale);
        proof {
            assert(sample_fold_v(samples) == acc);
            assert(res == color_scale_v(sample_fold_v(samples), self.pixel_samples_scale as int));
            assert(samples.len() == self.samples_per_pixel);
            assert(pixel_value_rel(*self, *world, i as int, j as int, res));
        }
        res
    }

    /// One row of the image, pixel by pixel: each entry satisfies the pixel
    /// relation at its column. Rows are independent, so a caller may compute
    /// them in any order or in parallel.
    pub fn render_row(&self, world: &Hittable, j: u32) -> (res: Vec<Color>)
        requires
            hittable_wf(*world),
        ensures
            res@.len() == self.image_width,
            forall|ii: int|
                0 <= ii < res@.len() ==> pixel_value_rel(
                    *self,
                    *world,
                    ii,
                    j as int,
                    #[trigger] res@[ii],
                ),
    {
        let mut row: Vec<Color> = Vec::new();
        let mut i: u32 = 0;
        while i < self.image_width
            invariant
                hittable_wf(*world),
                i <= self.image_width,
                row@.len() == i,
                forall|ii: int|
                    0 <= ii < row@.len() ==> pixel_value_rel(
                        *self,
                        *world,
                        ii,
                        j as int,
                        #[trigger] row@[ii],
                    ),
            decreases self.image_width - i,
        {
            let c = self.render_pixel(world, i, j);
            row.push(c);
            i = i + 1;
        }
        row
    }

    /// The whole image in row-major order: the pixel at column `ii` of row
    /// `jj` sits at index `jj * width + ii` and satisfies the pixel relation
    /// there.
    pub fn render(&self, world: &Hittable) -> (res: Vec<Color>)
        requires
            hittable_wf(*world),
        ensures
            res@.len() == (self.image_width as int) * (self.image_height as int),
            forall|ii: int, jj: int|
                0 <= ii < self.image_width && 0 <= jj < self.image_height ==> pixel_value_rel(
                    *self,
                    *world,
                    ii,
                    jj,
                    #[trigger] res@[jj * (self.image_width as int) + ii],
                ),
    {
        let ghost w = self.image_width as int;
        let mut buf: Vec<Color> = Vec::new();
        let mut j: u32 = 0;
        while j < self.image_height
            invariant
                hittable_wf(*world),
                w == self.image_width as int,
                j <= self.image_height,
                buf@.len() == (j as int) * w,
                forall|ii: int, jj: int|
                    0 <= ii < w && 0 <= jj < j ==> pixel_value_rel(
                        *self,
                        *world,
                        ii,
                        jj,
                        #[trigger] buf@[jj * w + ii],
                    ),
            decreases self.image_height - j,
        {
            let ghost prev = buf@;
            let mut row = self.render_row(world, j);
            let ghost rowv = row@;
            buf.append(&mut row);
            proof {
                assert(buf@ =~= prev + rowv);
                assert(((j + 1) as int) * w == (j as int) * w + w) by (nonlinear_arith);
                assert forall|ii: int, jj: int| 0 <= ii < w && 0 <= jj < j + 1 implies
                    pixel_value_rel(*self, *world, ii, jj, #[trigger] buf@[jj * w + ii]) by {
                    if jj < j {
                        assert((jj + 1) * w == jj * w + w) by (nonlinear_arith);
                        vstd::arithmetic::mul::lemma_mul_inequality(jj + 1, j as int, w);
                        assert(jj * w + ii < (j as int) * w);
                        assert(buf@[jj * w + ii] == prev[jj * w + ii]);
                    } else {
                        assert(jj * w + ii == prev.len() + ii);
                        assert(buf@[jj * w + ii] == rowv[ii]);
                    }
                }
            }
            j = j + 1;
        }
        proof {
            assert((self.image_height as int) * w == w * (self.image_height as int))
                by (nonlinear_arith);
        }
        buf
    }
}

/// A left fold of sample colors under the saturating sum.
pub open spec fn sample_fold_v(samples: Seq<Color>) -> Color
    decreases samples,
{
    if samples.len() == 0 {
        Color { r: 0, g: 0, b: 0 }
    } else {
        color_add_v(sample_fold_v(samples.drop_last()), samples.last())
    }
}

/// An admissible camera-ray draw for pixel `(i, j)`: exactly
/// `get_ray_at_v` at some in-pixel offset and some draw inside the unit
/// disk.
pub open spec fn camera_ray_rel(core: CameraCore, i: int, j: int, r: Ray) -> bool {
    exists|offset: Vec3, disk: Vec3|
        {
            &&& -(FX_HALF as int) <= offset.x < FX_HALF
            &&& -(FX_HALF as int) <= offset.y < FX_HALF
            &&& offset.z == 0
            &&& crate::vec3::vec_len_sq_v(disk) < FX_ONE
            &&& disk.z == 0
            &&& r == #[trigger] get_ray_at_v(core, i, j, offset, disk)
        }
}

/// What one pixel sample satisfies over a deterministic world: it is the
/// integrator's radiance relation at the full bounce budget, for some
/// admissible camera-ray draw of pixel `(i, j)`.
pub open spec fn pixel_sample_rel(
    core: CameraCore,
    world: Hittable,
    i: int,
    j: int,
    sample: Color,
) -> bool {
    exists|r: Ray|
        #[trigger] camera_ray_rel(core, i, j, r) && ray_color_rel(
            core.background,
            r,
            core.max_depth as int,
            world,
            sample,
        )
}

/// What one finished pixel satisfies: the sample scale times the fold of one
/// color per configured draw, each color — over a deterministic world —
/// a radiance sample of this pixel.
pub open spec fn pixel_value_rel(
    core: CameraCore,
    world: Hittable,
    i: int,
    j: int,
    res: Color,
) -> bool {
    exists|samples: Seq<Color>|
        {
            &&& samples.len() == core.samples_per_pixel
            &&& res == color_scale_v(
                #[trigger] sample_fold_v(samples),
                core.pixel_samples_scale as int,
            )
            &&& (deterministic(world) ==> forall|k: int|
                0 <= k < samples.len() ==> pixel_sample_rel(core, world, i, j, #[trigger] samples[k]))
        }
}

/// The camera ray for a pixel, an in-pixel offset, and a defocus draw.
pub open spec fn get_ray_at_v(core: CameraCore, i: int, j: int, offset: Vec3, disk: Vec3) -> Ray {
    let pixel_sample = vec_add_v(
        vec_add_v(
            core.pixel_00_loc,
            vec_scale_v(core.pixel_delta_u, fx_add_v(sat(i * (FX_ONE as int)), offset.x as int)),
        ),
        vec_scale_v(core.pixel_delta_v, fx_add_v(sat(j * (FX_ONE as int)), offset.y as int)),
    );
    let ray_origin = if core.defocus_angle <= 0 {
        core.center
    } else {
        vec_add_v(
            vec_add_v(core.center, vec_scale_v(core.defocus_disk_u, disk.x as int)),
            vec_scale_v(core.defocus_disk_v, disk.y as int),
        )
    };
    Ray { orig: ray_origin, dir: vec_sub_v(pixel_sample, ray_origin), time: 0 }
}

impl Camera {
    /// A small default configuration.
    pub fn new_basic() -> (r: Self)
        ensures
            r.image_width == 100,
            r.samples_per_pixel == 10,
            r.max_depth == 10,
            r.background is None,
    {
        Camera {
            aspect_ratio: FX_ONE,
            image_width: 100,
            samples_per_pixel: 10,
            max_depth: 10,
            vfov: 90 * FX_ONE,
            look_from: Point3 { x: 0, y: 0, z: 0 },
            look_at: Point3 { x: 0, y: 0, z: -FX_ONE },
            v_up: Vec3 { x: 0, y: FX_ONE, z: 0 },
            defocus_angle: 0,
            focus_dist: 10 * FX_ONE,
            background: None,
        }
    }

    /// Render the scene this camera sees: the framebuffer in row-major
    /// order, one color per pixel, every pixel satisfying the pixel relation
    /// of the viewport frame this configuration determines.
    pub fn render(&self, world: &Hittable) -> (res: Vec<Color>)
        requires
            hittable_wf(*world),
        ensures
            res@.len() == (camera_core_v(*self).image_width as int) * (camera_core_v(
                *self,
            ).image_height as int),
            forall|ii: int, jj: int|
                0 <= ii < camera_core_v(*self).image_width && 0 <= jj < camera_core_v(
                    *self,
                ).image_height ==> pixel_value_rel(
                    camera_core_v(*self),
                    *world,
                    ii,
                    jj,
                    #[trigger] res@[jj * (camera_core_v(*self).image_width as int) + ii],
                ),
    {
        let core = CameraCore::initialize(self);
        core.render(world)
    }
}

} // verus!
