//! Scene construction: build a world from a supplied scene description, or
//! fall back to the procedurally generated default scene.

use vstd::prelude::*;
use crate::fx::{fadd, fx_from_int, lemma_fmul_one, lemma_fmul_unit_range, lemma_fmul_zero, FX_ONE};
use crate::material::Material;
use crate::plane::{plane_wf, Plane};
use crate::rng::{random_color, Rng};
use crate::sphere::Sphere;
use crate::vec3::Vec3;
use crate::world::{world_wf, Primitive, World};

verus! {

/// One sphere of a supplied scene description.
#[derive(Clone, Copy, PartialEq, Eq, Structural, Debug)]
pub struct SphereSettings {
    pub center: Vec3,
    pub radius: i64,
}

/// One bounded plane of a supplied scene description.
#[derive(Clone, Copy, PartialEq, Eq, Structural, Debug)]
pub struct PlaneSettings {
    pub point1: Vec3,
    pub point2: Vec3,
    pub normal: Vec3,
    pub material: Material,
}

/// A supplied scene description. Only the sphere list is instantiated;
/// plane entries are carried in the configuration but not built into the
/// world.
#[derive(Clone, Debug)]
pub struct SceneSettings {
    pub spheres: Option<Vec<SphereSettings>>,
    pub planes: Option<Vec<PlaneSettings>>,
}

/// The albedo given to every sphere built from a scene description.
pub open spec fn preset_albedo() -> Vec3 {
    Vec3 { x: 26214, y: 13107, z: 6554 }
}

/// One sphere of the default scene's 11-by-11 field, at arena slot `k`:
/// radius and height are one fifth of a unit, the x and z coordinates lie
/// inside the cell of its grid coordinates, and its material is its own
/// arena entry.
pub open spec fn field_sphere_ok(pr: Primitive, k: int) -> bool {
    let ai = (k - 1) / 11;
    let bi = (k - 1) % 11;
    pr matches Primitive::Sphere(s) && s.radius == 13107 && s.center.y == 13107 && s.mat == k
        && (ai - 3) * 65536 <= s.center.x < (ai - 3) * 65536 + 58982 && (bi - 3) * 65536
        <= s.center.z < (bi - 3) * 65536 + 58982
}

/// A field sphere's material is one of the three drawn kinds: a diffuse
/// with unit-interval albedo, a metal with albedo in `[0.4, 1)` and fuzz
/// in `[0, 0.5)`, or the glass of refractive index one and a half.
pub open spec fn field_material_ok(m: Material) -> bool {
    ||| (m matches Material::Lambertian { albedo } && 0 <= albedo.x < FX_ONE && 0 <= albedo.y
        < FX_ONE && 0 <= albedo.z < FX_ONE)
    ||| (m matches Material::Metal { albedo, fuzz } && 26214 <= albedo.x < FX_ONE && 26214
        <= albedo.y < FX_ONE && 26214 <= albedo.z < FX_ONE && 0 <= fuzz < 32768)
    ||| m == (Material::Dielectric { refractive_index: 98304 })
}

/// The shape of the default scene, stated for every outcome of the draws:
/// the metallic ground sphere; the 121 field spheres with their cells and
/// drawn material kinds; and the six exact faces of the block over the box
/// x in [3, 4], y in [0, 1], z in [-1/2, 1/2], all sharing one metal.
pub open spec fn default_scene_ok(w: World) -> bool {
    &&& w.primitives@.len() == 128
    &&& w.materials@.len() == 123
    &&& w.primitives@[0] == Primitive::Sphere(
        Sphere { center: Vec3 { x: 0, y: (-65536000) as i64, z: 0 }, radius: 65536000, mat: 0 },
    )
    &&& w.materials@[0] == (Material::Metal {
        albedo: Vec3 { x: 58982, y: 39322, z: 32768 },
        fuzz: 6554,
    })
    &&& forall|k: int| 1 <= k < 122 ==> field_sphere_ok(#[trigger] w.primitives@[k], k)
    &&& forall|k: int| 1 <= k < 122 ==> field_material_ok(#[trigger] w.materials@[k])
    &&& w.materials@[122] == (Material::Metal {
        albedo: Vec3 { x: 19661, y: 13107, z: 6554 },
        fuzz: 0,
    })
    &&& w.primitives@[122] == Primitive::Plane(
        Plane {
            normal: Vec3 { x: 0, y: 0, z: 65536 },
            point1: Vec3 { x: 196608, y: 0, z: (-32768) as i64 },
            point2: Vec3 { x: 262144, y: 65536, z: (-32768) as i64 },
            mat: 122,
        },
    )
    &&& w.primitives@[123] == Primitive::Plane(
        Plane {
            normal: Vec3 { x: 0, y: 0, z: 65536 },
            point1: Vec3 { x: 196608, y: 0, z: 32768 },
            point2: Vec3 { x: 262144, y: 65536, z: 32768 },
            mat: 122,
        },
    )
    &&& w.primitives@[124] == Primitive::Plane(
        Plane {
            normal: Vec3 { x: 0, y: 65536, z: 0 },
            point1: Vec3 { x: 196608, y: 0, z: (-32768) as i64 },
            point2: Vec3 { x: 262144, y: 0, z: 32768 },
            mat: 122,
        },
    )
    &&& w.primitives@[125] == Primitive::Plane(
        Plane {
            normal: Vec3 { x: 0, y: 65536, z: 0 },
            point1: Vec3 { x: 196608, y: 65536, z: (-32768) as i64 },
            point2: Vec3 { x: 262144, y: 65536, z: 32768 },
            mat: 122,
        },
    )
    &&& w.primitives@[126] == Primitive::Plane(
        Plane {
            normal: Vec3 { x: 65536, y: 0, z: 0 },
            point1: Vec3 { x: 196608, y: 0, z: (-32768) as i64 },
            point2: Vec3 { x: 196608, y: 65536, z: 32768 },
            mat: 122,
        },
    )
    &&& w.primitives@[127] == Primitive::Plane(
        Plane {
            normal: Vec3 { x: 65536, y: 0, z: 0 },
            point1: Vec3 { x: 262144, y: 0, z: (-32768) as i64 },
            point2: Vec3 { x: 262144, y: 65536, z: 32768 },
            mat: 122,
        },
    )
}

/// The procedurally generated default scene: a large metallic ground
/// sphere, an 11-by-11 field of small spheres with randomly chosen
/// materials, and a rectangular block built from six bounded plane
/// segments.
pub fn random_scene(rng: &mut Rng) -> (w: World)
    ensures
        world_wf(w),
        default_scene_ok(w),
{
    let mut world = World::new();
    let ground = world.add_material(
        Material::Metal { albedo: Vec3::new(58982, 39322, 32768), fuzz: 6554 },
    );
    world.push(Primitive::Sphere(Sphere::new(Vec3::new(0, -65536000, 0), 65536000, ground)));

    let mut ai: i64 = 0;
    while ai < 11
        invariant
            0 <= ai <= 11,
            world_wf(world),
            world.primitives@.len() == 1 + ai * 11,
            world.materials@.len() == world.primitives@.len(),
            world.primitives@[0] == Primitive::Sphere(
                Sphere { center: Vec3 { x: 0, y: (-65536000) as i64, z: 0 }, radius: 65536000, mat: 0 },
            ),
            world.materials@[0] == (Material::Metal {
                albedo: Vec3 { x: 58982, y: 39322, z: 32768 },
                fuzz: 6554,
            }),
            forall|k: int|
                1 <= k < world.primitives@.len() ==> field_sphere_ok(
                    #[trigger] world.primitives@[k],
                    k,
                ),
            forall|k: int|
                1 <= k < world.materials@.len() ==> field_material_ok(
                    #[trigger] world.materials@[k],
                ),
        decreases 11 - ai,
    {
        let mut bi: i64 = 0;
        while bi < 11
            invariant
                0 <= ai < 11,
                0 <= bi <= 11,
                world_wf(world),
                world.primitives@.len() == 1 + ai * 11 + bi,
                world.materials@.len() == world.primitives@.len(),
                world.primitives@[0] == Primitive::Sphere(
                    Sphere { center: Vec3 { x: 0, y: (-65536000) as i64, z: 0 }, radius: 65536000, mat: 0 },
                ),
                world.materials@[0] == (Material::Metal {
                    albedo: Vec3 { x: 58982, y: 39322, z: 32768 },
                    fuzz: 6554,
                }),
                forall|k: int|
                    1 <= k < world.primitives@.len() ==> field_sphere_ok(
                        #[trigger] world.primitives@[k],
                        k,
                    ),
                forall|k: int|
                    1 <= k < world.materials@.len() ==> field_material_ok(
                        #[trigger] world.materials@[k],
                    ),
            decreases 11 - bi,
        {
            let choose_mat = rng.unit_interval();
            let cx = fadd(fx_from_int(ai - 3), rng.below(58982));
            let cz = fadd(fx_from_int(bi - 3), rng.below(58982));
            let center = Vec3::new(cx, 13107, cz);
            proof {
                vstd::arithmetic::div_mod::lemma_fundamental_div_mod_converse(
                    ai * 11 + bi,
                    11,
                    ai as int,
                    bi as int,
                );
            }
            if choose_mat < 52429 {
                let ca = random_color(rng, 0, FX_ONE);
                let cb = random_color(rng, 0, FX_ONE);
                let albedo = ca.hadamard(cb);
                proof {
                    lemma_fmul_unit_range(ca.x, cb.x);
                    lemma_fmul_unit_range(ca.y, cb.y);
                    lemma_fmul_unit_range(ca.z, cb.z);
                }
                let midx = world.add_material(Material::Lambertian { albedo });
                world.push(Primitive::Sphere(Sphere::new(center, 13107, midx)));
            } else if choose_mat < 62259 {
                let albedo = random_color(rng, 26214, 39322);
                let fuzz = rng.below(32768);
                let midx = world.add_material(Material::Metal { albedo, fuzz });
                world.push(Primitive::Sphere(Sphere::new(center, 13107, midx)));
            } else {
                let midx = world.add_material(Material::Dielectric { refractive_index: 98304 });
                world.push(Primitive::Sphere(Sphere::new(center, 13107, midx)));
            }
            bi = bi + 1;
        }
        ai = ai + 1;
    }

    // a rectangular block: six axis-aligned bounded plane segments over the
    // box x in [3, 4], y in [0, 1], z in [-1/2, 1/2]
    let cube_mat = world.add_material(
        Material::Metal { albedo: Vec3::new(19661, 13107, 6554), fuzz: 0 },
    );
    proof {
        lemma_fmul_zero(196608);
        lemma_fmul_zero(262144);
        lemma_fmul_zero(0);
        lemma_fmul_zero(65536);
        lemma_fmul_zero((-32768) as i64);
        lemma_fmul_zero(32768);
        lemma_fmul_one(196608);
        lemma_fmul_one(262144);
        lemma_fmul_one(0);
        lemma_fmul_one(65536);
        lemma_fmul_one((-32768) as i64);
        lemma_fmul_one(32768);
    }
    world.push(
        Primitive::Plane(
            Plane::new(
                Vec3::new(0, 0, FX_ONE),
                Vec3::new(196608, 0, -32768),
                Vec3::new(262144, 65536, -32768),
                cube_mat,
            ),
        ),
    );
    world.push(
        Primitive::Plane(
            Plane::new(
                Vec3::new(0, 0, FX_ONE),
                Vec3::new(196608, 0, 32768),
                Vec3::new(262144, 65536, 32768),
                cube_mat,
            ),
        ),
    );
    world.push(
        Primitive::Plane(
            Plane::new(
                Vec3::new(0, FX_ONE, 0),
                Vec3::new(196608, 0, -32768),
                Vec3::new(262144, 0, 32768),
                cube_mat,
            ),
        ),
    );
    world.push(
        Primitive::Plane(
            Plane::new(
                Vec3::new(0, FX_ONE, 0),
                Vec3::new(196608, 65536, -32768),
                Vec3::new(262144, 65536, 32768),
                cube_mat,
            ),
        ),
    );
    world.push(
        Primitive::Plane(
            Plane::new(
                Vec3::new(FX_ONE, 0, 0),
                Vec3::new(196608, 0, -32768),
                Vec3::new(196608, 65536, 32768),
                cube_mat,
            ),
        ),
    );
    world.push(
        Primitive::Plane(
            Plane::new(
                Vec3::new(FX_ONE, 0, 0),
                Vec3::new(262144, 0, -32768),
                Vec3::new(262144, 65536, 32768),
                cube_mat,
            ),
        ),
    );
    world
}

/// Build the world a supplied scene description asks for, or fall back to
/// the default scene when none is supplied. Each described sphere receives
/// its own arena entry holding the fixed preset albedo.
pub fn construct_scene_from_settings(scene_settings: &Option<SceneSettings>, rng: &mut Rng) -> (w:
    World)
    ensures
        world_wf(w),
        scene_settings matches Some(sc) ==> (sc.spheres matches Some(list) ==> {
            &&& w.primitives@.len() == list@.len()
            &&& w.materials@.len() == list@.len()
            &&& forall|k: int|
                0 <= k < list@.len() ==> (#[trigger] w.primitives@[k]) == Primitive::Sphere(
                    Sphere {
                        center: list@[k].center,
                        radius: list@[k].radius,
                        mat: k as usize,
                    },
                )
            &&& forall|k: int|
                0 <= k < list@.len() ==> (#[trigger] w.materials@[k]) == (Material::Lambertian {
                    albedo: preset_albedo(),
                })
        }),
        scene_settings matches Some(sc) ==> (sc.spheres is None ==> w.primitives@.len() == 0),
        scene_settings is None ==> default_scene_ok(w),
{
    match scene_settings {
        Some(sc) => {
            let mut world = World::new();
            match &sc.spheres {
                Some(list) => {
                    let mut k: usize = 0;
                    while k < list.len()
                        invariant
                            k <= list@.len(),
                            world_wf(world),
                            world.primitives@.len() == k,
                            world.materials@.len() == k,
                            forall|j: int|
                                0 <= j < k ==> (#[trigger] world.primitives@[j])
                                    == Primitive::Sphere(
                                    Sphere {
                                        center: list@[j].center,
                                        radius: list@[j].radius,
                                        mat: j as usize,
                                    },
                                ),
                            forall|j: int|
                                0 <= j < k ==> (#[trigger] world.materials@[j])
                                    == (Material::Lambertian { albedo: preset_albedo() }),
                        decreases list@.len() - k,
                    {
                        let midx = world.add_material(
                            Material::Lambertian { albedo: Vec3::new(26214, 13107, 6554) },
                        );
                        let st = list[k];
                        world.push(Primitive::Sphere(Sphere::new(st.center, st.radius, midx)));
                        k = k + 1;
                    }
                },
                None => {},
            }
            world
        },
        None => random_scene(rng),
    }
}

} // verus!
