//! Scattering behavior of the three materials, on exact scenarios.

use raytrace::fx::SCALE;
use raytrace::hittable::HitRecord;
use raytrace::material::{Dialectric, Lambertian, Material, MaterialKind, Metal};
use raytrace::ray::Ray;
use raytrace::rng::Rng;
use raytrace::vec3::Vec3;

fn record_at_origin_facing_up(material: MaterialKind) -> HitRecord {
    HitRecord::new(Vec3::zero(), Vec3::new(0, SCALE, 0), SCALE, material)
}

#[test]
fn lambertian_always_scatters_with_albedo() {
    let albedo = Vec3::new(SCALE / 2, SCALE / 4, SCALE / 8);
    let mat = Lambertian::new(albedo);
    let rec = record_at_origin_facing_up(MaterialKind::Lambertian(mat));
    let r_in = Ray::new(Vec3::new(0, SCALE, 0), Vec3::new(0, -SCALE, 0));
    let mut rng = Rng::new(11);
    for _ in 0..50 {
        let (attenuation, scattered) = mat.scatter(&mut rng, &r_in, &rec).expect("always Some");
        assert_eq!(attenuation, albedo);
        assert_eq!(scattered.origin, rec.p);
        // the direction is the normal plus a bounded sample; never zero
        assert!(!scattered.direction.near_zero());
    }
}

#[test]
fn metal_mirror_without_fuzz_is_deterministic() {
    let albedo = Vec3::new(SCALE, SCALE, SCALE);
    let mat = Metal::new(albedo, 0);
    let rec = record_at_origin_facing_up(MaterialKind::Metal(mat));
    // incoming at 45 degrees: (1, -1, 0) reflects to (1, 1, 0), normalized
    let r_in = Ray::new(Vec3::new(-SCALE, SCALE, 0), Vec3::new(SCALE, -SCALE, 0));
    let expected = Vec3::unit_vector(Vec3::reflect(r_in.direction, rec.normal));
    let mut rng = Rng::new(3);
    for _ in 0..20 {
        let (attenuation, scattered) = mat.scatter(&mut rng, &r_in, &rec).expect("reflects");
        assert_eq!(attenuation, albedo);
        assert_eq!(scattered.origin, rec.p);
        assert_eq!(scattered.direction, expected);
    }
}

#[test]
fn metal_new_clamps_fuzz() {
    let m = Metal::new(Vec3::new(SCALE, SCALE, SCALE), 3 * SCALE);
    assert_eq!(m.fuzz, SCALE);
    let m2 = Metal::new(Vec3::new(SCALE, SCALE, SCALE), SCALE / 4);
    assert_eq!(m2.fuzz, SCALE / 4);
    // a negative fuzz is raised to zero, not kept
    let m3 = Metal::new(Vec3::new(SCALE, SCALE, SCALE), -SCALE);
    assert_eq!(m3.fuzz, 0);
}

#[test]
fn metal_absorbs_grazing_reflection() {
    let mat = Metal::new(Vec3::new(SCALE, SCALE, SCALE), 0);
    let rec = record_at_origin_facing_up(MaterialKind::Metal(mat));
    // leaving the surface: the "reflection" points into it and is absorbed
    let r_in = Ray::new(Vec3::new(0, -SCALE, 0), Vec3::new(0, SCALE, 0));
    let mut rng = Rng::new(5);
    assert!(mat.scatter(&mut rng, &r_in, &rec).is_none());
}

#[test]
fn dielectric_always_scatters_white() {
    let mat = Dialectric::new(3 * SCALE / 2);
    let rec = record_at_origin_facing_up(MaterialKind::Dialectric(mat));
    let r_in = Ray::new(Vec3::new(0, SCALE, 0), Vec3::new(0, -SCALE, 0));
    let mut rng = Rng::new(17);
    for _ in 0..50 {
        let (attenuation, scattered) = mat.scatter(&mut rng, &r_in, &rec).expect("always Some");
        assert_eq!(attenuation, Vec3::new(SCALE, SCALE, SCALE));
        assert_eq!(scattered.origin, rec.p);
    }
}

#[test]
fn reflactance_at_normal_incidence_is_r0() {
    // index 1.5: r0 == ((1 - 1.5) / (1 + 1.5))^2 == 0.04, scaled
    let r = Dialectric::reflactance(SCALE, 3 * SCALE / 2);
    assert_eq!(r, 2621);
    // 2621 / 65536 is within one quantum of 0.04
    assert!((r - 2621_i64).abs() <= 1);
}

#[test]
fn reflactance_grows_toward_grazing() {
    let ri = 3 * SCALE / 2;
    let normal = Dialectric::reflactance(SCALE, ri);
    let grazing = Dialectric::reflactance(0, ri);
    assert!(grazing > normal);
    // at cosine zero the fifth power term is one: r0 + (1 - r0)
    assert!(grazing >= SCALE - 2);
}

#[test]
fn dielectric_normal_incidence_mostly_refracts() {
    // straight-on rays: reflectance is 0.04, so most draws refract
    let mat = Dialectric::new(3 * SCALE / 2);
    let rec = record_at_origin_facing_up(MaterialKind::Dialectric(mat));
    let r_in = Ray::new(Vec3::new(0, SCALE, 0), Vec3::new(0, -SCALE, 0));
    let mut rng = Rng::new(23);
    let mut refracted = 0;
    let total = 200;
    for _ in 0..total {
        let (_, scattered) = mat.scatter(&mut rng, &r_in, &rec).expect("always Some");
        // refraction continues downward, reflection turns back up
        if scattered.direction.y < 0 {
            refracted += 1;
        }
    }
    assert!(refracted > total * 8 / 10);
}

#[test]
fn scatter_is_reproducible_from_the_seed() {
    // the samplers are deterministic: equal seeds give equal scatters
    let lam = Lambertian::new(Vec3::new(SCALE / 2, SCALE / 2, SCALE / 2));
    let met = Metal::new(Vec3::new(SCALE, SCALE, SCALE), SCALE / 2);
    let rec_l = record_at_origin_facing_up(MaterialKind::Lambertian(lam));
    let rec_m = record_at_origin_facing_up(MaterialKind::Metal(met));
    let r_in = Ray::new(Vec3::new(-SCALE, SCALE, 0), Vec3::new(SCALE, -SCALE, 0));
    let mut a = Rng::new(123);
    let mut b = Rng::new(123);
    let sa = lam.scatter(&mut a, &r_in, &rec_l).expect("Some");
    let sb = lam.scatter(&mut b, &r_in, &rec_l).expect("Some");
    assert_eq!(sa.1.direction, sb.1.direction);
    assert_eq!(a.state, b.state);
    let ma = met.scatter(&mut a, &r_in, &rec_m);
    let mb = met.scatter(&mut b, &r_in, &rec_m);
    assert_eq!(ma.map(|p| p.1.direction), mb.map(|p| p.1.direction));
    assert_eq!(a.state, b.state);
}

#[test]
fn material_kind_dispatches() {
    let mat = MaterialKind::Lambertian(Lambertian::new(Vec3::new(SCALE / 2, SCALE / 2, SCALE / 2)));
    let rec = record_at_origin_facing_up(mat);
    let r_in = Ray::new(Vec3::new(0, SCALE, 0), Vec3::new(0, -SCALE, 0));
    let mut rng = Rng::new(29);
    let (attenuation, scattered) = mat.scatter(&mut rng, &r_in, &rec).expect("Some");
    assert_eq!(attenuation, Vec3::new(SCALE / 2, SCALE / 2, SCALE / 2));
    assert_eq!(scattered.origin, rec.p);
}
