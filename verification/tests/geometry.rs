use pathtracer::fx::{FX_ONE, fmul, fsqrt};
use pathtracer::plane::Plane;
use pathtracer::ray::Ray;
use pathtracer::rectanglexy::RectangleXY;
use pathtracer::sphere::Sphere;
use pathtracer::vec3::Vec3;
use pathtracer::world::{Primitive, World};
use pathtracer::material::Material;

#[test]
fn sphere_hits_are_recorded() {
    // a sphere of radius 100 centered at (0, -100.5, -1), probed by a ray
    // from its center along -z: the hit point is (0, -100.5, -101)
    let center = Vec3::new(0, -100 * FX_ONE - FX_ONE / 2, -FX_ONE);
    let sphere = Sphere::new(center, 100 * FX_ONE, 0);
    let u = Ray::new(center, Vec3::new(0, 0, -FX_ONE));
    if let Some(rec) = sphere.hit(&u, 66, i64::MAX) {
        assert_eq!(rec.p.x, 0);
        assert_eq!(rec.p.y, -100 * FX_ONE - FX_ONE / 2);
        assert_eq!(rec.p.z, -101 * FX_ONE);
    } else {
        assert!(false);
    }
}

#[test]
fn center_ray_hits_at_radius() {
    // from the center of a radius-2 sphere, along a unit direction, the hit
    // parameter is the radius and the oriented normal is unit length
    let sphere = Sphere::new(Vec3::new(0, 0, 0), 2 * FX_ONE, 0);
    let r = Ray::new(Vec3::new(0, 0, 0), Vec3::new(0, FX_ONE, 0));
    let rec = sphere.hit(&r, 66, i64::MAX).unwrap();
    assert_eq!(rec.t, 2 * FX_ONE);
    // the ray leaves through the far side, so this is a back face and the
    // normal is flipped to oppose the ray
    assert!(!rec.front_face);
    assert_eq!(rec.normal, Vec3::new(0, -FX_ONE, 0));
    assert_eq!(rec.normal.dot(rec.normal), FX_ONE);
}

#[test]
fn sphere_hit_from_outside_is_front_face() {
    // one ray from (0, -5, 0) at a unit sphere at the origin: t = 4 and the
    // hit point is (0, -1, 0), on the front face
    let sphere = Sphere::new(Vec3::new(0, 0, 0), FX_ONE, 0);
    let r = Ray::new(Vec3::new(0, -5 * FX_ONE, 0), Vec3::new(0, FX_ONE, 0));
    let rec = sphere.hit(&r, 66, i64::MAX).unwrap();
    assert_eq!(rec.t, 4 * FX_ONE);
    assert_eq!(rec.p, Vec3::new(0, -FX_ONE, 0));
    assert!(rec.front_face);
    assert_eq!(rec.normal, Vec3::new(0, -FX_ONE, 0));
    assert_eq!(rec.normal.dot(rec.normal), FX_ONE);
}

#[test]
fn sphere_miss_reports_none() {
    let sphere = Sphere::new(Vec3::new(0, 0, -10 * FX_ONE), FX_ONE, 0);
    let r = Ray::new(Vec3::new(0, 5 * FX_ONE, 0), Vec3::new(0, FX_ONE, 0));
    assert!(sphere.hit(&r, 66, i64::MAX).is_none());
}

#[test]
fn plane_rejects_in_plane_point_outside_bounds() {
    // the unit square in the z = 0 plane; a ray that meets the plane at
    // x = 2 is in-plane but outside the diagonal bounds and must be rejected
    let plane = Plane::new(
        Vec3::new(0, 0, FX_ONE),
        Vec3::new(0, 0, 0),
        Vec3::new(FX_ONE, FX_ONE, 0),
        0,
    );
    let r = Ray::new(Vec3::new(2 * FX_ONE, FX_ONE / 2, FX_ONE), Vec3::new(0, 0, -FX_ONE));
    assert!(plane.hit(&r, 66, i64::MAX).is_none());
}

#[test]
fn plane_accepts_boundary_point_within_tolerance() {
    // just beyond the corner coordinate, but inside the 0.01 tolerance
    let plane = Plane::new(
        Vec3::new(0, 0, FX_ONE),
        Vec3::new(0, 0, 0),
        Vec3::new(FX_ONE, FX_ONE, 0),
        0,
    );
    let x = FX_ONE + 600;
    let r = Ray::new(Vec3::new(x, FX_ONE / 2, FX_ONE), Vec3::new(0, 0, -FX_ONE));
    let rec = plane.hit(&r, 66, i64::MAX).unwrap();
    assert_eq!(rec.t, FX_ONE);
    assert_eq!(rec.normal, Vec3::new(0, 0, FX_ONE));
    assert!(!rec.front_face);
}

#[test]
fn plane_parallel_ray_reports_none() {
    let plane = Plane::new(
        Vec3::new(0, 0, FX_ONE),
        Vec3::new(0, 0, 0),
        Vec3::new(FX_ONE, FX_ONE, 0),
        0,
    );
    let r = Ray::new(Vec3::new(FX_ONE / 2, FX_ONE / 2, FX_ONE), Vec3::new(FX_ONE, 0, 0));
    assert!(plane.hit(&r, 66, i64::MAX).is_none());
}

#[test]
fn rectangle_hit_and_miss() {
    let rect = RectangleXY::new(Vec3::new(0, 0, -FX_ONE), Vec3::new(FX_ONE, FX_ONE, -FX_ONE), 0);
    let hit_ray = Ray::new(Vec3::new(FX_ONE / 2, FX_ONE / 2, 0), Vec3::new(0, 0, -FX_ONE));
    let rec = rect.hit(&hit_ray, 66, i64::MAX).unwrap();
    assert_eq!(rec.t, FX_ONE);
    assert_eq!(rec.p, Vec3::new(FX_ONE / 2, FX_ONE / 2, -FX_ONE));
    let miss_ray = Ray::new(Vec3::new(3 * FX_ONE, FX_ONE / 2, 0), Vec3::new(0, 0, -FX_ONE));
    assert!(rect.hit(&miss_ray, 66, i64::MAX).is_none());
}

#[test]
fn rectangle_respects_parameter_window() {
    // the rectangle lies behind this ray (negative parameter), inside its
    // x/y bounds: the window must reject it
    let rect = RectangleXY::new(Vec3::new(0, 0, FX_ONE), Vec3::new(FX_ONE, FX_ONE, FX_ONE), 0);
    let r = Ray::new(Vec3::new(FX_ONE / 2, FX_ONE / 2, 0), Vec3::new(0, 0, -FX_ONE));
    assert!(rect.hit(&r, 66, i64::MAX).is_none());
    // and a hit beyond a finite upper bound is rejected too
    let ahead = RectangleXY::new(
        Vec3::new(0, 0, -5 * FX_ONE),
        Vec3::new(FX_ONE, FX_ONE, -5 * FX_ONE),
        0,
    );
    assert!(ahead.hit(&r, 66, 2 * FX_ONE).is_none());
    assert!(ahead.hit(&r, 66, i64::MAX).is_some());
}

#[test]
fn world_returns_closest_hit() {
    // the far sphere is pushed first; the closer one must still win
    let mut world = World::new();
    let mat = world.add_material(Material::Lambertian { albedo: Vec3::new(FX_ONE / 2, FX_ONE / 2, FX_ONE / 2) });
    world.push(Primitive::Sphere(Sphere::new(Vec3::new(0, 0, -10 * FX_ONE), FX_ONE, mat)));
    world.push(Primitive::Sphere(Sphere::new(Vec3::new(0, 0, -4 * FX_ONE), FX_ONE, mat)));
    let r = Ray::new(Vec3::new(0, 0, 0), Vec3::new(0, 0, -FX_ONE));
    let rec = world.hit(&r, 66, i64::MAX).unwrap();
    assert_eq!(rec.t, 3 * FX_ONE);
    let mut world2 = World::new();
    let mat2 = world2.add_material(Material::Lambertian { albedo: Vec3::new(FX_ONE / 2, FX_ONE / 2, FX_ONE / 2) });
    world2.push(Primitive::Sphere(Sphere::new(Vec3::new(0, 0, -4 * FX_ONE), FX_ONE, mat2)));
    world2.push(Primitive::Sphere(Sphere::new(Vec3::new(0, 0, -10 * FX_ONE), FX_ONE, mat2)));
    let rec2 = world2.hit(&r, 66, i64::MAX).unwrap();
    assert_eq!(rec2.t, 3 * FX_ONE);
}

#[test]
fn fixed_point_sqrt_is_exact_on_squares() {
    assert_eq!(fsqrt(FX_ONE), FX_ONE);
    assert_eq!(fsqrt(4 * FX_ONE), 2 * FX_ONE);
    assert_eq!(fsqrt(0), 0);
    assert_eq!(fmul(3 * FX_ONE, 3 * FX_ONE), 9 * FX_ONE);
}
