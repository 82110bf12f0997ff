//! Vectors, rays, intervals, spheres and the scene scan, on exact values.

use raytrace::fx::SCALE;
use raytrace::hittable::{HitRecord, Hittable};
use raytrace::hittable_list::HittableList;
use raytrace::interval::Interval;
use raytrace::material::{Lambertian, MaterialKind};
use raytrace::ray::Ray;
use raytrace::sphere::Sphere;
use raytrace::vec3::Vec3;

fn gray() -> MaterialKind {
    MaterialKind::Lambertian(Lambertian::new(Vec3::new(SCALE / 2, SCALE / 2, SCALE / 2)))
}

#[test]
fn vector_algebra_exact() {
    let a = Vec3::new(SCALE, 2 * SCALE, -SCALE);
    let b = Vec3::new(3 * SCALE, -SCALE, SCALE);
    assert_eq!(a.add(b), Vec3::new(4 * SCALE, SCALE, 0));
    assert_eq!(a.sub(b), Vec3::new(-2 * SCALE, 3 * SCALE, -2 * SCALE));
    assert_eq!(a.neg(), Vec3::new(-SCALE, -2 * SCALE, SCALE));
    assert_eq!(a.mul(b), Vec3::new(3 * SCALE, -2 * SCALE, -SCALE));
    assert_eq!(a.scale(SCALE / 2), Vec3::new(SCALE / 2, SCALE, -SCALE / 2));
    // 1*3 + 2*(-1) + (-1)*1 == 0
    assert_eq!(Vec3::dot(a, b), 0);
    // x cross y == z
    let x = Vec3::new(SCALE, 0, 0);
    let y = Vec3::new(0, SCALE, 0);
    assert_eq!(Vec3::cross(x, y), Vec3::new(0, 0, SCALE));
}

#[test]
fn length_and_unit_vector() {
    // a 3-4-5 triangle
    let v = Vec3::new(3 * SCALE, 4 * SCALE, 0);
    assert_eq!(Vec3::length_squared(v), 25 * SCALE);
    assert_eq!(Vec3::length(v), 5 * SCALE);
    let u = Vec3::unit_vector(v);
    assert_eq!(u, Vec3::new(3 * SCALE / 5, 4 * SCALE / 5, 0));
    // the zero vector keeps itself instead of dividing by zero
    assert_eq!(Vec3::unit_vector(Vec3::zero()), Vec3::zero());
}

#[test]
fn near_zero_is_subquantum() {
    assert!(Vec3::zero().near_zero());
    assert!(!Vec3::new(1, 0, 0).near_zero());
}

#[test]
fn reflect_law_exact() {
    // straight down onto a floor: v - 2 (v.n) n
    let v = Vec3::new(SCALE, -SCALE, 0);
    let n = Vec3::new(0, SCALE, 0);
    assert_eq!(Vec3::reflect(v, n), Vec3::new(SCALE, SCALE, 0));
}

#[test]
fn refract_normal_incidence_passes_straight() {
    let uv = Vec3::new(0, 0, -SCALE);
    let n = Vec3::new(0, 0, SCALE);
    // index ratio 1/1.5
    let ri = 43690;
    assert_eq!(Vec3::refract(uv, n, ri), Vec3::new(0, 0, -SCALE));
}

#[test]
fn interval_contains_and_surronds() {
    let it = Interval::new(0, SCALE);
    assert!(it.contains(0) && it.contains(SCALE) && it.contains(100));
    assert!(!it.contains(-1) && !it.contains(SCALE + 1));
    assert!(it.surronds(100));
    assert!(!it.surronds(0) && !it.surronds(SCALE));
    assert_eq!(it.size(), SCALE);
}

#[test]
fn ray_at_walks_the_line() {
    let r = Ray::new(Vec3::new(0, 0, 0), Vec3::new(0, 0, -SCALE));
    assert_eq!(r.at(SCALE / 2), Vec3::new(0, 0, -SCALE / 2));
    assert_eq!(r.at(-SCALE), Vec3::new(0, 0, SCALE));
}

#[test]
fn sphere_hit_through_center() {
    // unit ray down -z, sphere at distance one, radius one half
    let s = Sphere::new(Vec3::new(0, 0, -SCALE), SCALE / 2, gray());
    let r = Ray::new(Vec3::new(0, 0, 0), Vec3::new(0, 0, -SCALE));
    let hit = s.hit(&r, Interval::new(66, i64::MAX)).expect("must hit");
    assert_eq!(hit.t, SCALE / 2);
    assert_eq!(hit.p, Vec3::new(0, 0, -SCALE / 2));
    // normal is parallel to the ray direction (opposite sense) ...
    assert_eq!(hit.normal, Vec3::new(0, 0, SCALE));
    // ... and the ray started outside, so this is a front face
    assert!(hit.front_face);
    // oriented against the ray
    assert!(Vec3::dot(hit.normal, r.direction) <= 0);
}

#[test]
fn sphere_hit_from_inside_flips_normal() {
    // ray starts at the center: the first surface hit is a back face
    let s = Sphere::new(Vec3::new(0, 0, 0), SCALE, gray());
    let r = Ray::new(Vec3::new(0, 0, 0), Vec3::new(0, 0, -SCALE));
    let hit = s.hit(&r, Interval::new(66, i64::MAX)).expect("must hit");
    assert_eq!(hit.t, SCALE);
    assert!(!hit.front_face);
    assert_eq!(hit.normal, Vec3::new(0, 0, SCALE));
    assert!(Vec3::dot(hit.normal, r.direction) <= 0);
}

#[test]
fn sphere_miss_and_degenerate() {
    let s = Sphere::new(Vec3::new(0, 0, -4 * SCALE), SCALE / 2, gray());
    // aimed well off the sphere
    let miss = Ray::new(Vec3::new(0, 0, 0), Vec3::new(0, SCALE, 0));
    assert!(s.hit(&miss, Interval::new(66, i64::MAX)).is_none());
    // a zero direction cannot intersect
    let stuck = Ray::new(Vec3::new(0, 0, 0), Vec3::zero());
    assert!(s.hit(&stuck, Interval::new(66, i64::MAX)).is_none());
    // a radius-zero sphere is never hit
    let point = Sphere::new(Vec3::new(0, 0, -SCALE), 0, gray());
    let through = Ray::new(Vec3::new(0, 0, 0), Vec3::new(0, 0, -SCALE));
    assert!(point.hit(&through, Interval::new(66, i64::MAX)).is_none());
}

#[test]
fn sphere_hit_respects_interval() {
    let s = Sphere::new(Vec3::new(0, 0, -SCALE), SCALE / 2, gray());
    let r = Ray::new(Vec3::new(0, 0, 0), Vec3::new(0, 0, -SCALE));
    // entry at t == 0.5 excluded: the far surface at t == 1.5 is taken
    let hit = s.hit(&r, Interval::new(SCALE, i64::MAX)).expect("far root");
    assert_eq!(hit.t, 3 * SCALE / 2);
    assert!(!hit.front_face);
    // both roots outside the window: no hit
    assert!(s.hit(&r, Interval::new(2 * SCALE, 3 * SCALE)).is_none());
}

#[test]
fn list_empty_misses() {
    let world = HittableList::new();
    let r = Ray::new(Vec3::new(0, 0, 0), Vec3::new(0, 0, -SCALE));
    assert!(world.hit(&r, Interval::new(66, i64::MAX)).is_none());
}

#[test]
fn list_keeps_closest_hit() {
    let mut world = HittableList::new();
    world.add(Sphere::new(Vec3::new(0, 0, -4 * SCALE), SCALE / 2, gray()));
    world.add(Sphere::new(Vec3::new(0, 0, -2 * SCALE), SCALE / 2, gray()));
    let r = Ray::new(Vec3::new(0, 0, 0), Vec3::new(0, 0, -SCALE));
    let hit = world.hit(&r, Interval::new(66, i64::MAX)).expect("must hit");
    // the nearer sphere's entry surface: t == 1.5
    assert_eq!(hit.t, 3 * SCALE / 2);
}

#[test]
fn set_normal_orients_against_ray() {
    let mat = gray();
    let r = Ray::new(Vec3::new(0, 0, 0), Vec3::new(0, 0, -SCALE));
    // normal already opposing the ray: kept, front face
    let mut rec = HitRecord::new(Vec3::new(0, 0, -SCALE), Vec3::new(0, 0, SCALE), SCALE, mat);
    rec.set_normal(&r);
    assert!(rec.front_face);
    assert_eq!(rec.normal, Vec3::new(0, 0, SCALE));
    assert!(Vec3::dot(rec.normal, r.direction) <= 0);
    // normal along the ray: flipped, back face
    let mut rec2 = HitRecord::new(Vec3::new(0, 0, -SCALE), Vec3::new(0, 0, -SCALE), SCALE, mat);
    rec2.set_normal(&r);
    assert!(!rec2.front_face);
    assert_eq!(rec2.normal, Vec3::new(0, 0, SCALE));
    assert!(Vec3::dot(rec2.normal, r.direction) <= 0);
}
