use pathtracer::camera::{Camera, CameraInit};
use pathtracer::fx::FX_ONE;
use pathtracer::material::Material;
use pathtracer::ray::Ray;
use pathtracer::render::{
    background, image_height, mix_seed, ray_color, render_image, render_row, to_rgb8,
    RenderSettings,
};
use pathtracer::rng::Rng;
use pathtracer::scene::{construct_scene_from_settings, random_scene, SceneSettings, SphereSettings};
use pathtracer::sphere::Sphere;
use pathtracer::vec3::Vec3;
use pathtracer::world::{Primitive, World};

fn test_camera() -> Camera {
    Camera::new(&CameraInit {
        look_from: Vec3::new(0, 0, 2 * FX_ONE),
        look_at: Vec3::new(0, 0, 0),
        vup: Vec3::new(0, FX_ONE, 0),
        // tan of half a 45-degree vertical field of view
        tan_half_vfov: 27146,
        aspect_ratio: FX_ONE,
        aperture: 0,
        focus_dist: 2 * FX_ONE,
    })
}

fn one_sphere_world() -> World {
    let mut world = World::new();
    let mat = world.add_material(Material::Lambertian {
        albedo: Vec3::new(FX_ONE / 2, FX_ONE / 2, FX_ONE / 2),
    });
    world.push(Primitive::Sphere(Sphere::new(Vec3::new(0, 0, 0), FX_ONE, mat)));
    world
}

#[test]
fn ray_color_at_depth_zero_is_black() {
    let world = one_sphere_world();
    let mut rng = Rng::from_seed(1);
    let r = Ray::new(Vec3::new(0, 0, 2 * FX_ONE), Vec3::new(0, 0, -FX_ONE));
    let c = ray_color(&r, &world, 0, &mut rng);
    assert_eq!(c, Vec3::new(0, 0, 0));
    let r2 = Ray::new(Vec3::new(5 * FX_ONE, -3 * FX_ONE, 0), Vec3::new(FX_ONE, FX_ONE, FX_ONE));
    assert_eq!(ray_color(&r2, &world, 0, &mut rng), Vec3::new(0, 0, 0));
}

#[test]
fn empty_world_falls_through_to_background() {
    let world = World::new();
    let mut rng = Rng::from_seed(2);
    // a horizontal ray blends white and sky evenly
    let r = Ray::new(Vec3::new(0, 0, 0), Vec3::new(0, 0, -FX_ONE));
    let c = ray_color(&r, &world, 50, &mut rng);
    assert_eq!(c, Vec3::new(52429, 57344, 52429));
    assert_eq!(c, background(&r));
    // a straight-up ray is pure sky color
    let up = Ray::new(Vec3::new(0, 0, 0), Vec3::new(0, FX_ONE, 0));
    assert_eq!(ray_color(&up, &world, 50, &mut rng), Vec3::new(39322, 49152, 39322));
    // even a degenerate zero direction must settle without panicking
    let zero = Ray::new(Vec3::new(0, 0, 0), Vec3::new(0, 0, 0));
    let _ = ray_color(&zero, &world, 50, &mut rng);
}

#[test]
fn gamma_quantization_is_exact() {
    // a full channel stays full; a quarter channel has gamma sqrt(1/4) = 1/2
    assert_eq!(to_rgb8(Vec3::new(FX_ONE, FX_ONE / 4, 0), 1), (255, 127, 0));
    // four samples summing to one unit average to a quarter
    assert_eq!(to_rgb8(Vec3::new(FX_ONE, FX_ONE, FX_ONE), 4), (127, 127, 127));
    // sums beyond one clamp to full
    assert_eq!(to_rgb8(Vec3::new(10 * FX_ONE, -FX_ONE, 0), 1), (255, 0, 0));
}

#[test]
fn image_height_follows_aspect_ratio() {
    // a 16:9 aspect ratio in fixed point
    assert_eq!(image_height(400, 116508), 225);
    assert_eq!(image_height(100, FX_ONE), 100);
    assert_eq!(image_height(100, 2 * FX_ONE), 50);
}

#[test]
fn seed_mixing_separates_pixels() {
    assert_eq!(mix_seed(42, 3, 5), mix_seed(42, 3, 5));
    assert_ne!(mix_seed(42, 0, 0), mix_seed(42, 1, 0));
    assert_ne!(mix_seed(42, 0, 0), mix_seed(42, 0, 1));
}

#[test]
fn pinhole_camera_rays_are_deterministic() {
    let cam = test_camera();
    let mut rng1 = Rng::from_seed(10);
    let mut rng2 = Rng::from_seed(20);
    let a = cam.get_ray(FX_ONE / 2, FX_ONE / 2, &mut rng1);
    let b = cam.get_ray(FX_ONE / 2, FX_ONE / 2, &mut rng2);
    assert_eq!(a, b);
}

#[test]
fn render_row_has_one_pixel_per_column() {
    let world = one_sphere_world();
    let cam = test_camera();
    let st = RenderSettings {
        image_width: 8,
        image_height: 6,
        samples_per_pixel: 1,
        max_depth: 4,
        seed: 42,
    };
    let row = render_row(&world, &cam, &st, 3);
    assert_eq!(row.len(), 8);
}

#[test]
fn seeded_render_is_reproducible() {
    let world = one_sphere_world();
    let cam = test_camera();
    let st = RenderSettings {
        image_width: 8,
        image_height: 6,
        samples_per_pixel: 1,
        max_depth: 4,
        seed: 42,
    };
    let img1 = render_image(&world, &cam, &st);
    let img2 = render_image(&world, &cam, &st);
    assert_eq!(img1.len(), 48);
    assert_eq!(img1, img2);
}

#[test]
fn scene_from_settings_builds_described_spheres() {
    let settings = SceneSettings {
        spheres: Some(vec![
            SphereSettings { center: Vec3::new(0, 0, 0), radius: FX_ONE },
            SphereSettings { center: Vec3::new(0, FX_ONE, 0), radius: FX_ONE / 2 },
        ]),
        planes: None,
    };
    let mut rng = Rng::from_seed(0);
    let world = construct_scene_from_settings(&Some(settings), &mut rng);
    assert_eq!(world.primitives.len(), 2);
    assert_eq!(world.materials.len(), 2);
    match world.primitives[1] {
        Primitive::Sphere(s) => {
            assert_eq!(s.center, Vec3::new(0, FX_ONE, 0));
            assert_eq!(s.radius, FX_ONE / 2);
        }
        _ => panic!("expected a sphere"),
    }
}

#[test]
fn default_scene_has_full_primitive_count() {
    let mut rng = Rng::from_seed(123);
    let world = random_scene(&mut rng);
    // ground sphere, an 11-by-11 field, and the six faces of the block
    assert_eq!(world.primitives.len(), 128);
    assert_eq!(world.materials.len(), 123);
    match world.primitives[0] {
        Primitive::Sphere(s) => {
            assert_eq!(s.center, Vec3::new(0, -1000 * FX_ONE, 0));
            assert_eq!(s.radius, 1000 * FX_ONE);
        }
        _ => panic!("expected the ground sphere"),
    }
    // the field spheres sit at height 0.2 inside their grid cells
    for k in 1..122usize {
        match world.primitives[k] {
            Primitive::Sphere(s) => {
                let ai = ((k - 1) / 11) as i64;
                let bi = ((k - 1) % 11) as i64;
                assert_eq!(s.radius, 13107);
                assert_eq!(s.center.y, 13107);
                assert!((ai - 3) * FX_ONE <= s.center.x && s.center.x < (ai - 3) * FX_ONE + 58982);
                assert!((bi - 3) * FX_ONE <= s.center.z && s.center.z < (bi - 3) * FX_ONE + 58982);
            }
            _ => panic!("expected a field sphere"),
        }
    }
    // the last six primitives are the block's faces over one shared metal
    for k in 122..128usize {
        match world.primitives[k] {
            Primitive::Plane(pl) => assert_eq!(pl.mat, 122),
            _ => panic!("expected a block face"),
        }
    }
}
