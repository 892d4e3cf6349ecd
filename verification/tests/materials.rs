use pathtracer::fx::FX_ONE;
use pathtracer::hit::HitRecord;
use pathtracer::material::Material;
use pathtracer::ray::Ray;
use pathtracer::rng::Rng;
use pathtracer::vec3::Vec3;

fn flat_hit() -> HitRecord {
    HitRecord {
        t: FX_ONE,
        p: Vec3::new(0, 0, 0),
        normal: Vec3::new(0, 0, FX_ONE),
        front_face: true,
        mat: 0,
    }
}

#[test]
fn lambertian_never_absorbs() {
    let albedo = Vec3::new(FX_ONE / 2, FX_ONE / 4, FX_ONE / 8);
    let mat = Material::Lambertian { albedo };
    let rec = flat_hit();
    let r_in = Ray::new(Vec3::new(0, 0, FX_ONE), Vec3::new(0, 0, -FX_ONE));
    let mut rng = Rng::from_seed(7);
    for _ in 0..200 {
        let (att, scattered) = mat.scatter(&r_in, &rec, &mut rng).expect("diffuse absorbed");
        assert_eq!(att, albedo);
        assert_eq!(scattered.orig, rec.p);
    }
}

#[test]
fn metal_with_zero_fuzz_reflects_exactly() {
    let albedo = Vec3::new(FX_ONE, FX_ONE, FX_ONE);
    let mat = Material::Metal { albedo, fuzz: 0 };
    let rec = flat_hit();
    // straight down onto a +z surface: the mirror image is straight up
    let r_in = Ray::new(Vec3::new(0, 0, FX_ONE), Vec3::new(0, 0, -FX_ONE));
    let mut rng = Rng::from_seed(3);
    let (att, scattered) = mat.scatter(&r_in, &rec, &mut rng).unwrap();
    assert_eq!(att, albedo);
    assert_eq!(scattered.orig, rec.p);
    assert_eq!(scattered.dir, Vec3::new(0, 0, FX_ONE));
    // the same draw stream again gives the same reflection: deterministic
    let mut rng2 = Rng::from_seed(99);
    let (_, scattered2) = mat.scatter(&r_in, &rec, &mut rng2).unwrap();
    assert_eq!(scattered2.dir, Vec3::new(0, 0, FX_ONE));
}

#[test]
fn metal_absorbs_directions_into_the_surface() {
    // a ray leaving along the normal reflects to point into the surface,
    // which a metal reports as absorption
    let mat = Material::Metal { albedo: Vec3::new(FX_ONE, FX_ONE, FX_ONE), fuzz: 0 };
    let rec = flat_hit();
    let r_in = Ray::new(Vec3::new(0, 0, -FX_ONE), Vec3::new(0, 0, FX_ONE));
    let mut rng = Rng::from_seed(5);
    assert!(mat.scatter(&r_in, &rec, &mut rng).is_none());
}

#[test]
fn dielectric_with_unit_index_passes_straight_through() {
    let mat = Material::Dielectric { refractive_index: FX_ONE };
    let rec = flat_hit();
    let r_in = Ray::new(Vec3::new(0, 0, FX_ONE), Vec3::new(0, 0, -FX_ONE));
    let mut rng = Rng::from_seed(11);
    for _ in 0..50 {
        let (att, scattered) = mat.scatter(&r_in, &rec, &mut rng).unwrap();
        assert_eq!(att, Vec3::new(FX_ONE, FX_ONE, FX_ONE));
        assert_eq!(scattered.orig, rec.p);
        assert_eq!(scattered.dir, Vec3::new(0, 0, -FX_ONE));
    }
}

#[test]
fn dielectric_never_absorbs() {
    let mat = Material::Dielectric { refractive_index: 98304 };
    let rec = flat_hit();
    let r_in = Ray::new(Vec3::new(FX_ONE, 0, FX_ONE), Vec3::new(-FX_ONE, 0, -FX_ONE));
    let mut rng = Rng::from_seed(13);
    for _ in 0..100 {
        let (att, _) = mat.scatter(&r_in, &rec, &mut rng).expect("dielectric absorbed");
        assert_eq!(att, Vec3::new(FX_ONE, FX_ONE, FX_ONE));
    }
}
