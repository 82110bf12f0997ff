//! The camera: derived view state, per-pixel ray generation, the recursive
//! integrator, and the render loop.
//!
//! Field-of-view and defocus angles enter as the tangents of their half
//! angles (`tan_half_vfov`, `tan_half_defocus`), which is what the view
//! geometry consumes; the caller computes them from degrees.

use vstd::prelude::*;
use crate::color;
use crate::color::{Color, Rgb, color_wf};
use crate::fx;
use crate::fx::{SCALE, FX_MAX};
use crate::hittable::Hittable;
use crate::interval::Interval;
use crate::material::Material;
use crate::ray::Ray;
use crate::rng::{Rng, spec_next, spec_draw};
use crate::vec3::{Vec3, Point3, spec_disk_sample, spec_disk_sample_state};

verus! {

/// One half, in fixed point.
pub const HALF: i64 = 32768;

/// Two, in fixed point.
pub const TWO_FX: i64 = 131072;

/// The sky gradient's horizon color is white; its zenith color is this
/// blue, `(0.5, 0.7, 1.0)`; this is the green channel.
pub const BLUE_G: i64 = 45875;

/// Lower bound of every scene query: about `0.001`, so a scattered ray
/// cannot re-intersect the surface it just left (shadow acne).
pub const T_MIN_EPS: i64 = 66;

/// The generator state after `n` draws.
pub open spec fn states_ahead(s: u64, n: nat) -> u64
    decreases n,
{
    if n == 0 {
        s
    } else {
        spec_next(states_ahead(s, (n - 1) as nat))
    }
}

/// Walking `a` draws and then `b` more is walking `a + b` draws.
pub proof fn lemma_states_ahead_add(s: u64, a: nat, b: nat)
    ensures
        states_ahead(s, a + b) == states_ahead(states_ahead(s, a), b),
    decreases b,
{
    if b > 0 {
        lemma_states_ahead_add(s, a, (b - 1) as nat);
    }
}

/// The sky: white at the horizon blended toward blue with the upward
/// component of the unit direction, remapped from `[-1, 1]` to `[0, 1]`
/// (and clamped there, which matters only for degenerate directions).
/// A function of the ray's direction alone.
pub open spec fn spec_background(ray: Ray) -> Color {
    let uy = Vec3::spec_unit(ray.direction).y;
    let a = fx::spec_clamp(fx::spec_mul(HALF, fx::spec_add(uy, SCALE)), 0, SCALE);
    Vec3::spec_add(
        Vec3::spec_scale(Vec3 { x: SCALE, y: SCALE, z: SCALE }, fx::spec_sub(SCALE, a)),
        Vec3::spec_scale(Vec3 { x: HALF, y: BLUE_G, z: SCALE }, a),
    )
}

/// Every pixel of a frame is the quantized average of its own in-range
/// sample colors; `ws` lists each pixel's sample colors, row-major.
pub open spec fn spec_frame_quantized(cam: Camera, ws: Seq<Seq<Color>>, pixels: Seq<Rgb>) -> bool {
    &&& ws.len() == pixels.len()
    &&& forall|k: int|
        0 <= k < pixels.len() ==> cam.spec_pixel_quantized(#[trigger] ws[k], pixels[k])
}

pub struct Camera {
    pub aspect_ratio: i64,
    pub image_width: usize,
    pub sample_per_pixel: usize,
    pub max_depth: usize,
    pub tan_half_vfov: i64,
    pub look_from: Point3,
    pub look_at: Point3,
    pub vup: Vec3,
    pub tan_half_defocus: i64,
    pub focus_dist: i64,
    // Derived state, computed by `initialize`.
    pub image_height: usize,
    pub pixel_samples_scale: i64,
    pub center: Point3,
    pub pixel00_loc: Point3,
    pub pixel_delta_u: Vec3,
    pub pixel_delta_v: Vec3,
    // Camera frame basis vectors.
    pub u: Vec3,
    pub v: Vec3,
    pub w: Vec3,
    pub defocus_disk_u: Vec3,
    pub defocus_disk_v: Vec3,
}

impl Camera {
    /// The configuration a render needs: positive aspect ratio, a bounded
    /// positive resolution, and a bounded positive sample count.
    pub open spec fn config_wf(self) -> bool {
        &&& self.aspect_ratio > 0
        &&& 1 <= self.image_width <= 10000
        &&& 1 <= self.sample_per_pixel <= 100000
    }

    /// The derived state `initialize` computes, as a value.
    pub open spec fn spec_initialize(self) -> Camera {
        let wfx = fx::spec_from_int(self.image_width as i64);
        let hfx = fx::spec_div(wfx, self.aspect_ratio);
        let h0 = fx::tdiv(hfx as int, SCALE as int);
        let image_height = (if h0 < 1 {
            1
        } else {
            h0
        }) as usize;
        let hgtfx = fx::spec_from_int(image_height as i64);
        let center = self.look_from;
        let viewport_height = fx::spec_mul(
            fx::spec_add(self.tan_half_vfov, self.tan_half_vfov),
            self.focus_dist,
        );
        let viewport_width = fx::spec_mul(viewport_height, fx::spec_div(wfx, hgtfx));
        let w_basis = Vec3::spec_unit(Vec3::spec_sub(self.look_from, self.look_at));
        let u_basis = Vec3::spec_unit(Vec3::spec_cross(self.vup, w_basis));
        let v_basis = Vec3::spec_cross(w_basis, u_basis);
        let viewport_u = Vec3::spec_scale(u_basis, viewport_width);
        let viewport_v = Vec3::spec_scale(Vec3::spec_neg(v_basis), viewport_height);
        let pixel_delta_u = Vec3::spec_div(viewport_u, wfx);
        let pixel_delta_v = Vec3::spec_div(viewport_v, hgtfx);
        let viewport_upper_left = Vec3::spec_sub(
            Vec3::spec_sub(
                Vec3::spec_sub(center, Vec3::spec_scale(w_basis, self.focus_dist)),
                Vec3::spec_div(viewport_u, TWO_FX),
            ),
            Vec3::spec_div(viewport_v, TWO_FX),
        );
        let pixel00_loc = Vec3::spec_add(
            viewport_upper_left,
            Vec3::spec_scale(Vec3::spec_add(pixel_delta_u, pixel_delta_v), HALF),
        );
        let defocus_radius = fx::spec_mul(self.focus_dist, self.tan_half_defocus);
        Camera {
            image_height,
            pixel_samples_scale: fx::spec_div(
                SCALE,
                fx::spec_from_int(self.sample_per_pixel as i64),
            ),
            center,
            pixel00_loc,
            pixel_delta_u,
            pixel_delta_v,
            u: u_basis,
            v: v_basis,
            w: w_basis,
            defocus_disk_u: Vec3::spec_scale(u_basis, defocus_radius),
            defocus_disk_v: Vec3::spec_scale(v_basis, defocus_radius),
            ..self
        }
    }

    /// The jitter offsets of a sample, from the first two draws.
    pub open spec fn spec_offset_x(s0: u64) -> i64 {
        fx::spec_sub(spec_draw(s0), HALF)
    }

    pub open spec fn spec_offset_y(s0: u64) -> i64 {
        fx::spec_sub(spec_draw(spec_next(s0)), HALF)
    }

    /// The sampled point of pixel `(i, j)` on the viewport grid.
    pub open spec fn spec_pixel_sample(self, i: i64, j: i64, ox: i64, oy: i64) -> Vec3 {
        Vec3::spec_add(
            Vec3::spec_add(
                self.pixel00_loc,
                Vec3::spec_scale(self.pixel_delta_u, fx::spec_add(fx::spec_from_int(i), ox)),
            ),
            Vec3::spec_scale(self.pixel_delta_v, fx::spec_add(fx::spec_from_int(j), oy)),
        )
    }

    /// The ray of pixel `(i, j)` when the lens is a point: from the camera
    /// center through the jittered sample point.
    pub open spec fn spec_centered_ray(self, i: i64, j: i64, s0: u64) -> Ray {
        let ps = self.spec_pixel_sample(i, j, Camera::spec_offset_x(s0), Camera::spec_offset_y(s0));
        Ray { origin: self.center, direction: Vec3::spec_sub(ps, self.center) }
    }

    /// A lens point: the center offset along the defocus disk basis.
    pub open spec fn spec_defocus_point(self, px: i64, py: i64) -> Point3 {
        Vec3::spec_add(
            Vec3::spec_add(self.center, Vec3::spec_scale(self.defocus_disk_u, px)),
            Vec3::spec_scale(self.defocus_disk_v, py),
        )
    }

    /// The color accumulated for pixel `(i, j)` over the first `n` samples
    /// when no ray hits anything and the lens is a point: each sample adds
    /// the sky of its jittered ray, two draws apart from the last.
    pub open spec fn spec_sky_pixel_sum(self, i: i64, j: i64, s: u64, n: nat) -> Color
        decreases n,
    {
        if n == 0 {
            Vec3 { x: 0, y: 0, z: 0 }
        } else {
            Vec3::spec_add(
                self.spec_sky_pixel_sum(i, j, s, (n - 1) as nat),
                spec_background(
                    self.spec_centered_ray(i, j, states_ahead(s, (2 * (n - 1)) as nat)),
                ),
            )
        }
    }

    /// Pixel `k` (row-major) of a frame of empty sky rendered from
    /// generator state `s0`: its samples averaged and quantized.
    pub open spec fn spec_sky_pixel(self, s0: u64, k: int) -> Rgb {
        let w = self.image_width as int;
        let i = k % w;
        let j = k / w;
        let sk = states_ahead(s0, (2 * self.sample_per_pixel * k) as nat);
        let sum = self.spec_sky_pixel_sum(
            i as i64,
            j as i64,
            sk,
            self.sample_per_pixel as nat,
        );
        crate::color::spec_to_rgb8(Vec3::spec_scale(sum, self.pixel_samples_scale))
    }

    /// What one emitted pixel is, whatever the scene: the quantized,
    /// averaged fold of its per-sample integrator colors, each in range.
    pub open spec fn spec_pixel_quantized(self, cs: Seq<Color>, px: Rgb) -> bool {
        &&& cs.len() == self.sample_per_pixel
        &&& (forall|m: int| 0 <= m < cs.len() ==> color_wf(#[trigger] cs[m]))
        &&& px == crate::color::spec_to_rgb8(
            Vec3::spec_scale(crate::color::spec_color_sum(cs), self.pixel_samples_scale),
        )
    }

    /// The defaults: square aspect, 100 columns, 10 samples, depth 10, a
    /// 90-degree field of view (tangent one), eye at the origin looking
    /// down `-z`, up along `+y`, a point lens, and focus distance 10.
    pub fn new() -> (r: Camera)
        ensures
            r.aspect_ratio == SCALE,
            r.image_width == 100,
            r.image_height == 0,
            r.max_depth == 10,
            r.tan_half_vfov == SCALE,
            r.look_from == (Vec3 { x: 0, y: 0, z: 0 }),
            r.look_at == (Vec3 { x: 0, y: 0, z: (-65536) as i64 }),
            r.vup == (Vec3 { x: 0, y: SCALE, z: 0 }),
            r.tan_half_defocus == 0,
            r.focus_dist == 10 * SCALE,
            r.pixel_samples_scale == 0,
            r.sample_per_pixel == 10,
            r.center == (Vec3 { x: 0, y: 0, z: 0 }),
            r.pixel00_loc == (Vec3 { x: 0, y: 0, z: 0 }),
            r.pixel_delta_u == (Vec3 { x: 0, y: 0, z: 0 }),
            r.pixel_delta_v == (Vec3 { x: 0, y: 0, z: 0 }),
            r.u == (Vec3 { x: 0, y: 0, z: 0 }),
            r.v == (Vec3 { x: 0, y: 0, z: 0 }),
            r.w == (Vec3 { x: 0, y: 0, z: 0 }),
            r.defocus_disk_u == (Vec3 { x: 0, y: 0, z: 0 }),
            r.defocus_disk_v == (Vec3 { x: 0, y: 0, z: 0 }),
            r.config_wf(),
    {
        Camera {
            aspect_ratio: SCALE,
            image_width: 100,
            image_height: 0,
            max_depth: 10,
            tan_half_vfov: SCALE,
            look_from: Vec3::zero(),
            look_at: Vec3::new(0, 0, -SCALE),
            vup: Vec3::new(0, SCALE, 0),
            tan_half_defocus: 0,
            focus_dist: 655360,
            pixel_samples_scale: 0,
            sample_per_pixel: 10,
            center: Vec3::zero(),
            pixel00_loc: Vec3::zero(),
            pixel_delta_u: Vec3::zero(),
            pixel_delta_v: Vec3::zero(),
            u: Vec3::zero(),
            v: Vec3::zero(),
            w: Vec3::zero(),
            defocus_disk_u: Vec3::zero(),
            defocus_disk_v: Vec3::zero(),
        }
    }

    /// Compute the derived state from the configuration.  Must run before
    /// rays are generated; `render` runs it first.
    pub fn initialize(&mut self)
        requires
            old(self).config_wf(),
        ensures
            *final(self) == old(self).spec_initialize(),
            1 <= final(self).image_height <= 0x80000000,
    {
        let wfx = fx::fx_from_int(self.image_width as i64);
        let hfx = fx::fx_div(wfx, self.aspect_ratio);
        proof {
            vstd::arithmetic::div_mod::lemma_div_pos_is_pos(
                (wfx as int) * (SCALE as int),
                self.aspect_ratio as int,
            );
            vstd::arithmetic::div_mod::lemma_div_nonincreasing(
                (wfx as int) * (SCALE as int),
                self.aspect_ratio as int,
            );
            assert((wfx as int) * (SCALE as int) <= 0x10000000000000000) by (nonlinear_arith)
                requires
                    0 <= wfx <= 655360000,
            ;
            vstd::arithmetic::div_mod::lemma_div_pos_is_pos(hfx as int, SCALE as int);
            vstd::arithmetic::div_mod::lemma_div_nonincreasing(hfx as int, SCALE as int);
        }
        let h0 = hfx / SCALE;
        self.image_height = if h0 < 1 {
            1
        } else {
            h0 as usize
        };
        let hgtfx = fx::fx_from_int(self.image_height as i64);

        self.pixel_samples_scale = fx::fx_div(SCALE, fx::fx_from_int(self.sample_per_pixel as i64));

        self.center = self.look_from;

        let viewport_height = fx::fx_mul(
            fx::fx_add(self.tan_half_vfov, self.tan_half_vfov),
            self.focus_dist,
        );
        let viewport_width = fx::fx_mul(viewport_height, fx::fx_div(wfx, hgtfx));

        self.w = Vec3::unit_vector(self.look_from.sub(self.look_at));
        self.u = Vec3::unit_vector(Vec3::cross(self.vup, self.w));
        self.v = Vec3::cross(self.w, self.u);

        let viewport_u = self.u.scale(viewport_width);
        let viewport_v = self.v.neg().scale(viewport_height);

        self.pixel_delta_u = viewport_u.div(wfx);
        self.pixel_delta_v = viewport_v.div(hgtfx);

        let viewport_upper_left = self
            .center
            .sub(self.w.scale(self.focus_dist))
            .sub(viewport_u.div(TWO_FX))
            .sub(viewport_v.div(TWO_FX));
        self.pixel00_loc = viewport_upper_left.add(
            self.pixel_delta_u.add(self.pixel_delta_v).scale(HALF),
        );

        let defocus_radius = fx::fx_mul(self.focus_dist, self.tan_half_defocus);
        self.defocus_disk_u = self.u.scale(defocus_radius);
        self.defocus_disk_v = self.v.scale(defocus_radius);
    }

    /// The color carried back along a ray: black once depth is exhausted,
    /// the sky when nothing is hit within `[T_MIN_EPS, FX_MAX]`, black on
    /// absorption, and otherwise the scattered color tinted by the
    /// material's attenuation.  Every channel stays within `[0, 1]`.  On a
    /// hit, some scatter outcome permitted by the struck material's own
    /// `scatter_post` decides the result: absorption gives black, and a
    /// scattered ray gives the attenuation times the color that came back
    /// along it (a color in range, pinned no further since it depends on
    /// the draws the recursion consumes).
    pub fn ray_color<W: Hittable>(
        &self,
        ray: &Ray,
        depth: usize,
        world: &W,
        rng: &mut Rng,
    ) -> (c: Color)
        requires
            world.wf(),
        ensures
            color_wf(c),
            depth == 0 ==> c == (Vec3 { x: 0, y: 0, z: 0 }) && *final(rng) == *old(rng),
            depth > 0 && world.hit_spec(*ray, Interval { min: T_MIN_EPS, max: FX_MAX })
                is None ==> c == spec_background(*ray) && *final(rng) == *old(rng),
            depth > 0 ==> (world.hit_spec(*ray, Interval { min: T_MIN_EPS, max: FX_MAX })
                matches Some(rec) ==> (exists|s1: u64, res: Option<(Color, Ray)>|
                {
                    &&& #[trigger] rec.material.scatter_post(old(rng).state, s1, *ray, rec, res)
                    &&& (res is None ==> c == (Vec3 { x: 0, y: 0, z: 0 }))
                    &&& (res matches Some(ar) ==> (exists|back: Color|
                        #[trigger] color_wf(back) && c == Vec3::spec_mul(ar.0, back)))
                })),
        decreases depth,
    {
        if depth == 0 {
            return Vec3::zero();
        }
        match world.hit(ray, Interval::new(T_MIN_EPS, FX_MAX)) {
            Option::Some(rec) => {
                let sres = rec.material.scatter(rng, ray, &rec);
                let ghost s1v = rng.state;
                match sres {
                    Option::Some((attenuation, scattered)) => {
                        let rc = self.ray_color(&scattered, depth - 1, world, rng);
                        proof {
                            fx::lemma_mul_unit_range(attenuation.x, rc.x);
                            fx::lemma_mul_unit_range(attenuation.y, rc.y);
                            fx::lemma_mul_unit_range(attenuation.z, rc.z);
                        }
                        let out = attenuation.mul(rc);
                        proof {
                            assert(rec.material.scatter_post(old(rng).state, s1v, *ray, rec, sres)
                                && (sres matches Some(ar) ==> color_wf(rc) && out
                                == Vec3::spec_mul(ar.0, rc)));
                        }
                        out
                    },
                    Option::None => {
                        proof {
                            assert(rec.material.scatter_post(old(rng).state, s1v, *ray, rec, sres));
                        }
                        Vec3::zero()
                    },
                }
            },
            Option::None => {
                let unit_direction = Vec3::unit_vector(ray.direction);
                let a = fx::fx_clamp(
                    fx::fx_mul(HALF, fx::fx_add(unit_direction.y, SCALE)),
                    0,
                    SCALE,
                );
                let white = Vec3::new(SCALE, SCALE, SCALE);
                let blue = Vec3::new(HALF, BLUE_G, SCALE);
                proof {
                    fx::lemma_mul_one_exact(fx::spec_sub(SCALE, a));
                    fx::lemma_mul_one_exact(a);
                    fx::lemma_mul_unit_range(a, HALF);
                    fx::lemma_mul_unit_range(a, BLUE_G);
                }
                white.scale(fx::fx_sub(SCALE, a)).add(blue.scale(a))
            },
        }
    }

    /// The jittered, lens-sampled ray of pixel `(i, j)`: an exact function
    /// of the generator state.  With a point lens the ray leaves the
    /// camera center; with a real lens it leaves the sampled lens point.
    pub fn get_ray(&self, i: usize, j: usize, rng: &mut Rng) -> (r: Ray)
        requires
            i <= 0x7fffffff,
            j <= 0x7fffffff,
        ensures
            self.tan_half_defocus <= 0 ==> r == self.spec_centered_ray(
                i as i64,
                j as i64,
                old(rng).state,
            ) && final(rng).state == spec_next(spec_next(old(rng).state)),
            self.tan_half_defocus > 0 ==> ({
                let p = spec_disk_sample(spec_next(spec_next(old(rng).state)), 63);
                let origin = self.spec_defocus_point(p.x, p.y);
                &&& r == (Ray {
                    origin,
                    direction: Vec3::spec_sub(
                        self.spec_pixel_sample(
                            i as i64,
                            j as i64,
                            Camera::spec_offset_x(old(rng).state),
                            Camera::spec_offset_y(old(rng).state),
                        ),
                        origin,
                    ),
                })
                &&& final(rng).state == spec_disk_sample_state(
                    spec_next(spec_next(old(rng).state)),
                    63,
                )
            }),
    {
        let offset = self.sample_square(rng);
        let pixel_sample = self
            .pixel00_loc
            .add(self.pixel_delta_u.scale(fx::fx_add(fx::fx_from_int(i as i64), offset.x)))
            .add(self.pixel_delta_v.scale(fx::fx_add(fx::fx_from_int(j as i64), offset.y)));
        let ray_origin = if self.tan_half_defocus <= 0 {
            self.center
        } else {
            self.defocus_disk_sample(rng)
        };
        let ray_direction = pixel_sample.sub(ray_origin);
        Ray::new(ray_origin, ray_direction)
    }

    /// A point of the lens: the center offset within the defocus disk by
    /// the sampled disk point.
    fn defocus_disk_sample(&self, rng: &mut Rng) -> (r: Point3)
        ensures
            ({
                let p = spec_disk_sample(old(rng).state, 63);
                r == self.spec_defocus_point(p.x, p.y)
            }),
            final(rng).state == spec_disk_sample_state(old(rng).state, 63),
    {
        let p = Vec3::random_in_unit_disk(rng);
        self.center.add(self.defocus_disk_u.scale(p.x)).add(self.defocus_disk_v.scale(p.y))
    }

    /// The per-sample jitter: a point of `[-1/2, 1/2)^2`.
    fn sample_square(&self, rng: &mut Rng) -> (r: Vec3)
        ensures
            r.x == Camera::spec_offset_x(old(rng).state),
            r.y == Camera::spec_offset_y(old(rng).state),
            r.z == 0,
            final(rng).state == spec_next(spec_next(old(rng).state)),
    {
        let x = fx::fx_sub(rng.random_fx(), HALF);
        let y = fx::fx_sub(rng.random_fx(), HALF);
        Vec3 { x, y, z: 0 }
    }

    /// Render the scene: derive the view state, then for every pixel in
    /// row-major order accumulate `sample_per_pixel` integrator results,
    /// average them, and quantize.  Returns one byte triple per pixel;
    /// each is the quantized average of its own in-range sample colors.
    /// When no ray can hit anything, the lens is a point and at least one
    /// bounce is allowed, the whole frame is an exact function of the
    /// generator seed: every pixel is the quantized sky of its own
    /// jittered rays.
    #[verifier::rlimit(100)]
    pub fn render<W: Hittable>(&mut self, world: &W, rng: &mut Rng) -> (pixels: Vec<Rgb>)
        requires
            old(self).config_wf(),
            world.wf(),
        ensures
            *final(self) == old(self).spec_initialize(),
            pixels.len() == final(self).image_height * final(self).image_width,
            exists|ws: Seq<Seq<Color>>| #![trigger ws.len()]
                spec_frame_quantized(*final(self), ws, pixels@),
            (old(self).tan_half_defocus <= 0 && old(self).max_depth >= 1 && (forall|
                ray: Ray,
                it: Interval,
            |
                #[trigger] world.hit_spec(ray, it) is None)) ==> (forall|k: int|
                0 <= k < pixels.len() ==> #[trigger] pixels@[k] == final(self).spec_sky_pixel(
                    old(rng).state,
                    k,
                )),
    {
        self.initialize();
        let width = self.image_width;
        let height = self.image_height;
        let spp = self.sample_per_pixel;
        let scale = self.pixel_samples_scale;
        let depth = self.max_depth;
        let ghost cam = *self;
        let ghost s0 = rng.state;
        let ghost sky = cam.tan_half_defocus <= 0 && depth >= 1 && (forall|ray: Ray, it: Interval|
            #[trigger] world.hit_spec(ray, it) is None);
        let mut pixels: Vec<Rgb> = Vec::new();
        let ghost mut all_samples: Seq<Seq<Color>> = Seq::empty();
        proof {
            assert(height * width <= 0x80000000 * 10000int) by (nonlinear_arith)
                requires
                    height <= 0x80000000,
                    width <= 10000,
            ;
        }
        proof {
            assert(states_ahead(s0, 0) == s0);
            let plen = pixels@.len() as int;
            assert(plen == 0);
            assert(2 * spp * plen == 0) by (nonlinear_arith)
                requires
                    plen == 0,
            ;
        }
        let mut j: usize = 0;
        while j < height
            invariant
                world.wf(),
                cam == *self,
                width == cam.image_width,
                height == cam.image_height,
                spp == cam.sample_per_pixel,
                depth == cam.max_depth,
                scale == cam.pixel_samples_scale,
                1 <= spp <= 100000,
                1 <= width <= 10000,
                height <= 0x80000000,
                j <= height,
                pixels.len() == j * width,
                all_samples.len() == pixels.len(),
                forall|k: int|
                    0 <= k < pixels.len() ==> cam.spec_pixel_quantized(
                        all_samples[k],
                        #[trigger] pixels@[k],
                    ),
                sky == (cam.tan_half_defocus <= 0 && depth >= 1 && (forall|
                    ray: Ray,
                    it: Interval,
                |
                    #[trigger] world.hit_spec(ray, it) is None)),
                sky ==> rng.state == states_ahead(s0, (2 * spp * pixels.len()) as nat),
                sky ==> (forall|k: int|
                    0 <= k < pixels.len() ==> #[trigger] pixels@[k] == cam.spec_sky_pixel(s0, k)),
            decreases height - j,
        {
            let mut i: usize = 0;
            while i < width
                invariant
                    world.wf(),
                    cam == *self,
                    width == cam.image_width,
                    height == cam.image_height,
                    spp == cam.sample_per_pixel,
                    depth == cam.max_depth,
                    scale == cam.pixel_samples_scale,
                    1 <= spp <= 100000,
                    1 <= width <= 10000,
                    height <= 0x80000000,
                    j < height,
                    i <= width,
                    pixels.len() == j * width + i,
                    all_samples.len() == pixels.len(),
                    forall|k: int|
                        0 <= k < pixels.len() ==> cam.spec_pixel_quantized(
                            all_samples[k],
                            #[trigger] pixels@[k],
                        ),
                    sky == (cam.tan_half_defocus <= 0 && depth >= 1 && (forall|
                        ray: Ray,
                        it: Interval,
                    |
                        #[trigger] world.hit_spec(ray, it) is None)),
                    sky ==> rng.state == states_ahead(s0, (2 * spp * pixels.len()) as nat),
                    sky ==> (forall|k: int|
                        0 <= k < pixels.len() ==> #[trigger] pixels@[k] == cam.spec_sky_pixel(
                            s0,
                            k,
                        )),
                decreases width - i,
            {
                let ghost kidx = (j * width + i) as int;
                let ghost sk = states_ahead(s0, (2 * spp * kidx) as nat);
                let mut pixel_color = Vec3::zero();
                let ghost mut samples: Seq<Color> = Seq::empty();
                let mut s: usize = 0;
                while s < spp
                    invariant
                        world.wf(),
                        cam == *self,
                        width == cam.image_width,
                        height == cam.image_height,
                        spp == cam.sample_per_pixel,
                        depth == cam.max_depth,
                        1 <= spp <= 100000,
                        1 <= width <= 10000,
                        height <= 0x80000000,
                        j < height,
                        i < width,
                        s <= spp,
                        kidx == j * width + i,
                        scale == cam.pixel_samples_scale,
                        samples.len() == s,
                        forall|m: int|
                            0 <= m < samples.len() ==> color_wf(#[trigger] samples[m]),
                        pixel_color == crate::color::spec_color_sum(samples),
                        sk == states_ahead(s0, (2 * spp * kidx) as nat),
                        sky == (cam.tan_half_defocus <= 0 && depth >= 1 && (forall|
                            ray: Ray,
                            it: Interval,
                        |
                            #[trigger] world.hit_spec(ray, it) is None)),
                        sky ==> rng.state == states_ahead(sk, (2 * s) as nat),
                        sky ==> pixel_color == cam.spec_sky_pixel_sum(
                            i as i64,
                            j as i64,
                            sk,
                            s as nat,
                        ),
                    decreases spp - s,
                {
                    let ghost prev = rng.state;
                    let r = self.get_ray(i, j, rng);
                    let c = self.ray_color(&r, depth, world, rng);
                    proof {
                        if sky {
                            assert(states_ahead(sk, (2 * s + 1) as nat) == spec_next(
                                states_ahead(sk, (2 * s) as nat),
                            ));
                            assert(states_ahead(sk, (2 * s + 2) as nat) == spec_next(
                                states_ahead(sk, (2 * s + 1) as nat),
                            ));
                            assert(cam.spec_sky_pixel_sum(i as i64, j as i64, sk, (s + 1) as nat)
                                == Vec3::spec_add(
                                cam.spec_sky_pixel_sum(i as i64, j as i64, sk, s as nat),
                                spec_background(
                                    cam.spec_centered_ray(i as i64, j as i64, prev),
                                ),
                            ));
                        }
                    }
                    proof {
                        let prev_samples = samples;
                        samples = samples.push(c);
                        assert(samples.drop_last() =~= prev_samples);
                        assert(samples.last() == c);
                    }
                    pixel_color = pixel_color.add(c);
                    s = s + 1;
                }
                let px = color::to_rgb8(pixel_color.scale(scale));
                proof {
                    if sky {
                        vstd::arithmetic::div_mod::lemma_fundamental_div_mod_converse_div(
                            kidx,
                            width as int,
                            j as int,
                            i as int,
                        );
                        vstd::arithmetic::div_mod::lemma_fundamental_div_mod_converse_mod(
                            kidx,
                            width as int,
                            j as int,
                            i as int,
                        );
                        assert(px == cam.spec_sky_pixel(s0, kidx));
                        lemma_states_ahead_add(s0, (2 * spp * kidx) as nat, (2 * spp) as nat);
                        assert(2 * spp * kidx + 2 * spp == 2 * spp * (kidx + 1)) by (nonlinear_arith);
                    }
                }
                proof {
                    assert(cam.spec_pixel_quantized(samples, px));
                    all_samples = all_samples.push(samples);
                }
                pixels.push(px);
                i = i + 1;
            }
            proof {
                assert(j * width + width == (j + 1) * width) by (nonlinear_arith);
            }
            j = j + 1;
        }
        proof {
            assert(height * width == width * height) by (nonlinear_arith);
            assert(all_samples.len() == pixels@.len());
            assert(spec_frame_quantized(cam, all_samples, pixels@));
            assert(cam == *self);

        }
        pixels
    }
}

/// The sky is a function of the ray's direction alone: where a ray starts
/// does not change the background it resolves to.
pub proof fn lemma_background_ignores_origin(o1: Point3, o2: Point3, d: Vec3)
    ensures
        spec_background(Ray { origin: o1, direction: d }) == spec_background(
            Ray { origin: o2, direction: d },
        ),
{
}

} // verus!
