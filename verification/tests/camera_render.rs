//! The camera, the integrator, and whole-frame rendering.

use raytrace::camera::Camera;
use raytrace::color::{to_rgb8, Rgb};
use raytrace::fx::{fx_add, fx_clamp, fx_mul, SCALE};
use raytrace::hittable_list::HittableList;
use raytrace::material::{Lambertian, MaterialKind};
use raytrace::ray::Ray;
use raytrace::rng::Rng;
use raytrace::sphere::Sphere;
use raytrace::vec3::Vec3;

/// The sky gradient a no-hit ray resolves to, recomputed from its pieces.
fn background_of(direction: Vec3) -> Vec3 {
    let uy = Vec3::unit_vector(direction).y;
    let a = fx_clamp(fx_mul(32768, fx_add(uy, SCALE)), 0, SCALE);
    let white = Vec3::new(SCALE, SCALE, SCALE);
    let blue = Vec3::new(32768, 45875, SCALE);
    white.scale(SCALE - a).add(blue.scale(a))
}

#[test]
fn camera_defaults() {
    let cam = Camera::new();
    assert_eq!(cam.aspect_ratio, SCALE);
    assert_eq!(cam.image_width, 100);
    assert_eq!(cam.sample_per_pixel, 10);
    assert_eq!(cam.max_depth, 10);
    assert_eq!(cam.tan_half_vfov, SCALE);
    assert_eq!(cam.look_from, Vec3::zero());
    assert_eq!(cam.look_at, Vec3::new(0, 0, -SCALE));
    assert_eq!(cam.vup, Vec3::new(0, SCALE, 0));
    assert_eq!(cam.tan_half_defocus, 0);
    assert_eq!(cam.focus_dist, 10 * SCALE);
}

#[test]
fn initialize_derives_view_state() {
    let mut cam = Camera::new();
    cam.initialize();
    // square aspect: as many rows as columns
    assert_eq!(cam.image_height, 100);
    // 1 / 10 samples, in fixed point, truncated
    assert_eq!(cam.pixel_samples_scale, 6553);
    assert_eq!(cam.center, Vec3::zero());
    // looking down -z with up +y: the right-handed basis
    assert_eq!(cam.w, Vec3::new(0, 0, SCALE));
    assert_eq!(cam.u, Vec3::new(SCALE, 0, 0));
    assert_eq!(cam.v, Vec3::new(0, SCALE, 0));
    // a point lens leaves the defocus basis at zero
    assert_eq!(cam.defocus_disk_u, Vec3::zero());
    assert_eq!(cam.defocus_disk_v, Vec3::zero());
}

#[test]
fn get_ray_starts_at_center_without_defocus() {
    let mut cam = Camera::new();
    cam.initialize();
    let mut rng = Rng::new(1);
    let r = cam.get_ray(0, 0, &mut rng);
    assert_eq!(r.origin, cam.center);
}

#[test]
fn ray_color_depth_zero_is_black() {
    let mut cam = Camera::new();
    cam.initialize();
    let mut world = HittableList::new();
    world.add(Sphere::new(
        Vec3::new(0, 0, -SCALE),
        SCALE / 2,
        MaterialKind::Lambertian(Lambertian::new(Vec3::new(SCALE / 2, SCALE / 2, SCALE / 2))),
    ));
    let mut rng = Rng::new(2);
    let r = Ray::new(Vec3::zero(), Vec3::new(0, 0, -SCALE));
    assert_eq!(cam.ray_color(&r, 0, &world, &mut rng), Vec3::zero());
}

#[test]
fn ray_color_miss_is_the_gradient_of_direction_alone() {
    let cam = Camera::new();
    let world = HittableList::new();
    let mut rng = Rng::new(3);
    // straight ahead: a == 1/2 exactly
    let d = Vec3::new(0, 0, -SCALE);
    let c = cam.ray_color(&Ray::new(Vec3::zero(), d), 7, &world, &mut rng);
    assert_eq!(c, Vec3::new(49152, 55705, SCALE));
    assert_eq!(c, background_of(d));
    // straight up: the zenith blue exactly
    let up = Vec3::new(0, SCALE, 0);
    let cu = cam.ray_color(&Ray::new(Vec3::zero(), up), 7, &world, &mut rng);
    assert_eq!(cu, Vec3::new(32768, 45875, SCALE));
    // independent of the ray's origin
    let far = Vec3::new(5 * SCALE, -3 * SCALE, 9 * SCALE);
    let c2 = cam.ray_color(&Ray::new(far, d), 7, &world, &mut rng);
    assert_eq!(c2, c);
}

#[test]
fn render_empty_scene_reproduces_the_gradient() {
    let mut cam = Camera::new();
    cam.aspect_ratio = 2 * SCALE;
    cam.image_width = 4;
    cam.sample_per_pixel = 1;
    let world = HittableList::new();
    let mut rng = Rng::new(42);
    let pixels = cam.render(&world, &mut rng);
    assert_eq!(cam.image_height, 2);
    assert_eq!(pixels.len(), 8);
    // replay the same draws: each pixel is its ray's gradient, quantized
    let mut cam2 = Camera::new();
    cam2.aspect_ratio = 2 * SCALE;
    cam2.image_width = 4;
    cam2.sample_per_pixel = 1;
    cam2.initialize();
    let mut rng2 = Rng::new(42);
    let mut k = 0;
    for j in 0..2 {
        for i in 0..4 {
            let r = cam2.get_ray(i, j, &mut rng2);
            let expected = to_rgb8(background_of(r.direction).scale(cam2.pixel_samples_scale));
            assert_eq!(pixels[k], expected);
            k += 1;
        }
    }
}

#[test]
fn render_single_sphere_two_pixels_leave_the_gradient() {
    // a narrow view straight at a gray sphere: both pixels hit it, and
    // with depth one every hit resolves to black, never the background
    let mut cam = Camera::new();
    cam.aspect_ratio = 2 * SCALE;
    cam.image_width = 2;
    cam.sample_per_pixel = 1;
    cam.max_depth = 1;
    cam.tan_half_vfov = 3277;  // about a 5.7-degree field of view
    let mut world = HittableList::new();
    world.add(Sphere::new(
        Vec3::new(0, 0, -SCALE),
        SCALE / 2,
        MaterialKind::Lambertian(Lambertian::new(Vec3::new(SCALE / 2, SCALE / 2, SCALE / 2))),
    ));
    let mut rng = Rng::new(7);
    let pixels = cam.render(&world, &mut rng);
    assert_eq!(cam.image_height, 1);
    assert_eq!(pixels.len(), 2);
    // the background at this row, for comparison, from a replayed camera
    let mut cam2 = Camera::new();
    cam2.aspect_ratio = 2 * SCALE;
    cam2.image_width = 2;
    cam2.sample_per_pixel = 1;
    cam2.max_depth = 1;
    cam2.tan_half_vfov = 3277;
    cam2.initialize();
    let mut rng2 = Rng::new(7);
    for (i, pixel) in pixels.iter().enumerate() {
        let r = cam2.get_ray(i, 0, &mut rng2);
        let sky = to_rgb8(background_of(r.direction).scale(cam2.pixel_samples_scale));
        // depth exhaustion after one bounce: the sphere shows as black
        assert_eq!(*pixel, Rgb { r: 0, g: 0, b: 0 });
        assert_ne!(*pixel, sky);
    }
}

#[test]
fn quantization_gamma_and_clamp() {
    // full white: every channel saturates to 255
    let w = to_rgb8(Vec3::new(SCALE, SCALE, SCALE));
    assert_eq!(w, Rgb { r: 255, g: 255, b: 255 });
    // black stays black, negative channels too
    let b = to_rgb8(Vec3::new(0, -5, 0));
    assert_eq!(b, Rgb { r: 0, g: 0, b: 0 });
    // linear 1/4 gamma-corrects to 1/2: byte 128
    let q = to_rgb8(Vec3::new(SCALE / 4, 0, 0));
    assert_eq!(q.r, 128);
    // values above one clamp rather than wrap
    let over = to_rgb8(Vec3::new(4 * SCALE, 0, 0));
    assert_eq!(over.r, 255);
}
