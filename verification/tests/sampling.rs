//! The randomized vector helpers: bounds that hold of every outcome.

use raytrace::camera::Camera;
use raytrace::fx::SCALE;
use raytrace::rng::Rng;
use raytrace::vec3::Vec3;

#[test]
fn random_components_in_unit_interval() {
    let mut rng = Rng::new(31);
    for _ in 0..50 {
        let v = Vec3::random(&mut rng);
        assert!(0 <= v.x && v.x < SCALE);
        assert!(0 <= v.y && v.y < SCALE);
        assert!(0 <= v.z && v.z < SCALE);
    }
}

#[test]
fn random_range_components_in_bounds() {
    let mut rng = Rng::new(37);
    for _ in 0..50 {
        let v = Vec3::random_range(&mut rng, -3 * SCALE, 5 * SCALE);
        assert!(-3 * SCALE <= v.x && v.x <= 5 * SCALE);
        assert!(-3 * SCALE <= v.y && v.y <= 5 * SCALE);
        assert!(-3 * SCALE <= v.z && v.z <= 5 * SCALE);
    }
}

#[test]
fn unit_disk_samples_stay_in_the_disk() {
    let mut rng = Rng::new(41);
    for _ in 0..50 {
        let p = Vec3::random_in_unit_disk(&mut rng);
        assert_eq!(p.z, 0);
        assert!(Vec3::length_squared(p) < SCALE);
    }
}

#[test]
fn unit_vector_samples_are_near_unit_length() {
    let mut rng = Rng::new(43);
    for _ in 0..50 {
        let u = Vec3::random_unit_vector(&mut rng);
        assert!(-2 * SCALE <= u.x && u.x <= 2 * SCALE);
        assert!(-2 * SCALE <= u.y && u.y <= 2 * SCALE);
        assert!(-2 * SCALE <= u.z && u.z <= 2 * SCALE);
        // close to the unit sphere in practice: within a quarter either way
        let lsq = Vec3::length_squared(u);
        assert!(lsq > SCALE / 2 && lsq < 2 * SCALE);
    }
}

#[test]
fn hemisphere_samples_agree_with_the_normal() {
    let mut rng = Rng::new(47);
    let normal = Vec3::new(0, 0, SCALE);
    for _ in 0..50 {
        let u = Vec3::random_on_hemishpere(&mut rng, normal);
        assert!(Vec3::dot(u, normal) >= 0);
    }
}

#[test]
fn initialize_clamps_height_to_one() {
    // an extreme aspect ratio floors the height at one row
    let mut cam = Camera::new();
    cam.aspect_ratio = 1000 * SCALE;
    cam.image_width = 10;
    cam.initialize();
    assert_eq!(cam.image_height, 1);
}
