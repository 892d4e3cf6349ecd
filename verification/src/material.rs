//! The optical material model: Lambertian diffuse, fuzzy metal, and clear
//! dielectric. `scatter` either produces an attenuation color and an
//! outgoing ray, or signals absorption with `None`.
//!
//! The executable `scatter` consumes random draws; its result is pinned to
//! the spec-level mirror [`scatter_s`] applied to *some* admissible draw, and
//! the laws below hold of the mirror for *every* draw.

use vstd::prelude::*;
use crate::fx::{
    fabs, fabs_s, fadd, fadd_s, fclamp, fclamp_s, fdiv, fdiv_s, fmin_s, fmul, fmul_s, fneg_s,
    fsqrt, fsqrt_s, fsub, fsub_s, iabs, lemma_fadd_zero, lemma_fdiv_nonneg, lemma_fdiv_one,
    lemma_fmul_neg_one, lemma_fmul_one, lemma_fmul_zero, lemma_sqrt_unique, FX_BIG, FX_ONE,
};
use crate::hit::HitRecord;
use crate::ray::Ray;
use crate::rng::{in_sphere_s, random_in_unit_sphere, Rng};
use crate::vec3::{
    dot_s, in_range_s, near_zero_s, reflect, reflect_s, refract, refract_s, unit_s, vadd_s,
    vneg_s, vscale_s, Vec3,
};

verus! {

/// The closed set of materials a primitive can carry.
#[derive(Clone, Copy, PartialEq, Eq, Structural, Debug)]
pub enum Material {
    Lambertian { albedo: Vec3 },
    Metal { albedo: Vec3, fuzz: i64 },
    Dielectric { refractive_index: i64 },
}

/// Well-formed material parameters: fuzz lies in `[0, 1]` and a refractive
/// index is positive.
pub open spec fn mat_wf(m: Material) -> bool {
    match m {
        Material::Lambertian { .. } => true,
        Material::Metal { fuzz, .. } => 0 <= fuzz && fuzz <= FX_ONE,
        Material::Dielectric { refractive_index } => 0 < refractive_index,
    }
}

/// Schlick's reflectance approximation,
/// `r0 + (1 - r0) * (1 - cos)^5` with `r0 = ((1 - ratio) / (1 + ratio))^2`.
pub open spec fn reflectance_s(cos: i64, ratio: i64) -> i64 {
    let r0 = fdiv_s(fsub_s(FX_ONE, ratio), fadd_s(FX_ONE, ratio));
    let r0sq = fmul_s(r0, r0);
    let p = fsub_s(FX_ONE, cos);
    let p5 = fmul_s(fmul_s(fmul_s(p, p), fmul_s(p, p)), p);
    fadd_s(r0sq, fmul_s(fsub_s(FX_ONE, r0sq), p5))
}

pub fn reflectance(cos: i64, ratio: i64) -> (r: i64)
    requires
        ratio >= 0,
    ensures
        r == reflectance_s(cos, ratio),
{
    let denom = fadd(FX_ONE, ratio);
    let r0 = fdiv(fsub(FX_ONE, ratio), denom);
    let r0sq = fmul(r0, r0);
    let p = fsub(FX_ONE, cos);
    let p2 = fmul(p, p);
    let p5 = fmul(fmul(p2, p2), p);
    fadd(r0sq, fmul(fsub(FX_ONE, r0sq), p5))
}

/// What `scatter` computes from one admissible pair of random draws:
/// `rv` a point inside the unit sphere, `ru` a unit-interval value.
pub open spec fn scatter_s(m: Material, r_in: Ray, rec: HitRecord, rv: Vec3, ru: i64) -> Option<
    (Vec3, Ray),
> {
    match m {
        Material::Lambertian { albedo } => {
            let d0 = vadd_s(rec.normal, rv);
            let d = if near_zero_s(d0) {
                rec.normal
            } else {
                d0
            };
            Some((albedo, Ray { orig: rec.p, dir: d }))
        },
        Material::Metal { albedo, fuzz } => {
            let refl = reflect_s(unit_s(r_in.dir), rec.normal);
            let d = vadd_s(refl, vscale_s(rv, fuzz));
            if dot_s(d, rec.normal) > 0 {
                Some((albedo, Ray { orig: rec.p, dir: d }))
            } else {
                None
            }
        },
        Material::Dielectric { refractive_index } => {
            let ratio = if rec.front_face {
                fdiv_s(FX_ONE, refractive_index)
            } else {
                refractive_index
            };
            let ud = unit_s(r_in.dir);
            let cos = fclamp_s(dot_s(vneg_s(ud), rec.normal), fneg_s(FX_ONE), FX_ONE);
            let sin = fsqrt_s(fabs_s(fsub_s(FX_ONE, fmul_s(cos, cos))));
            let d = if fmul_s(ratio, sin) > FX_ONE || reflectance_s(cos, ratio) > ru {
                reflect_s(ud, rec.normal)
            } else {
                refract_s(ud, rec.normal, ratio)
            };
            Some((Vec3 { x: FX_ONE, y: FX_ONE, z: FX_ONE }, Ray { orig: rec.p, dir: d }))
        },
    }
}

impl Material {
    /// Scatter the incoming ray at the given hit, or report absorption.
    /// A Lambertian never absorbs; a dielectric never absorbs and never
    /// tints; a metal absorbs exactly the directions that would re-enter
    /// the surface.
    pub fn scatter(&self, r_in: &Ray, rec: &HitRecord, rng: &mut Rng) -> (res: Option<
        (Vec3, Ray),
    >)
        requires
            mat_wf(*self),
        ensures
            exists|rv: Vec3, ru: i64|
                in_sphere_s(rv) && 0 <= ru < FX_ONE && res == scatter_s(
                    *self,
                    *r_in,
                    *rec,
                    rv,
                    ru,
                ),
            (*self) matches Material::Lambertian { albedo } ==> (res matches Some(pair)
                && pair.0 == albedo && pair.1.orig == rec.p),
            (*self) matches Material::Metal { albedo, fuzz } ==> (res matches Some(pair) ==> (
            pair.0 == albedo && pair.1.orig == rec.p && dot_s(pair.1.dir, rec.normal) > 0)),
            (*self) matches Material::Dielectric { .. } ==> (res matches Some(pair) && pair.0
                == (Vec3 { x: FX_ONE, y: FX_ONE, z: FX_ONE }) && pair.1.orig == rec.p),
    {
        match *self {
            Material::Lambertian { albedo } => {
                let rv = random_in_unit_sphere(rng);
                let d0 = rec.normal.add(rv);
                let d = if d0.near_zero() {
                    rec.normal
                } else {
                    d0
                };
                let res = Some((albedo, Ray::new(rec.p, d)));
                proof {
                    assert(in_sphere_s(rv) && 0 <= 0i64 < FX_ONE && res == scatter_s(
                        *self,
                        *r_in,
                        *rec,
                        rv,
                        0i64,
                    ));
                }
                res
            },
            Material::Metal { albedo, fuzz } => {
                let rv = random_in_unit_sphere(rng);
                let refl = reflect(r_in.dir.normalized(), rec.normal);
                let d = refl.add(rv.scale(fuzz));
                let res = if d.dot(rec.normal) > 0 {
                    Some((albedo, Ray::new(rec.p, d)))
                } else {
                    None
                };
                proof {
                    assert(in_sphere_s(rv) && 0 <= 0i64 < FX_ONE && res == scatter_s(
                        *self,
                        *r_in,
                        *rec,
                        rv,
                        0i64,
                    ));
                }
                res
            },
            Material::Dielectric { refractive_index } => {
                let ru = rng.unit_interval();
                let ratio = if rec.front_face {
                    fdiv(FX_ONE, refractive_index)
                } else {
                    refractive_index
                };
                proof {
                    if rec.front_face {
                        lemma_fdiv_nonneg(FX_ONE, refractive_index);
                    }
                }
                let ud = r_in.dir.normalized();
                let cos = fclamp(ud.neg().dot(rec.normal), -FX_ONE, FX_ONE);
                let sin = fsqrt(fabs(fsub(FX_ONE, fmul(cos, cos))));
                let d = if fmul(ratio, sin) > FX_ONE || reflectance(cos, ratio) > ru {
                    reflect(ud, rec.normal)
                } else {
                    refract(ud, rec.normal, ratio)
                };
                let res = Some((Vec3::new(FX_ONE, FX_ONE, FX_ONE), Ray::new(rec.p, d)));
                proof {
                    let zv = Vec3 { x: 0i64, y: 0i64, z: 0i64 };
                    assert(in_sphere_s(zv) && 0 <= ru < FX_ONE && res == scatter_s(
                        *self,
                        *r_in,
                        *rec,
                        zv,
                        ru,
                    ));
                }
                res
            },
        }
    }
}

/// Law: a metal with zero fuzz is deterministic — for every random draw the
/// scattered direction is the exact mirror reflection of the unit incoming
/// direction, and the ray is absorbed exactly when that reflection does not
/// leave the surface.
pub proof fn lemma_metal_fuzz_zero_deterministic(
    albedo: Vec3,
    r_in: Ray,
    rec: HitRecord,
    rv: Vec3,
    ru: i64,
)
    ensures
        scatter_s(Material::Metal { albedo, fuzz: 0 }, r_in, rec, rv, ru) == ({
            let refl = reflect_s(unit_s(r_in.dir), rec.normal);
            if dot_s(refl, rec.normal) > 0 {
                Some((albedo, Ray { orig: rec.p, dir: refl }))
            } else {
                None::<(Vec3, Ray)>
            }
        }),
{
    let refl = reflect_s(unit_s(r_in.dir), rec.normal);
    lemma_fmul_zero(rv.x);
    lemma_fmul_zero(rv.y);
    lemma_fmul_zero(rv.z);
    lemma_fadd_zero(refl.x);
    lemma_fadd_zero(refl.y);
    lemma_fadd_zero(refl.z);
    assert(vadd_s(refl, vscale_s(rv, 0)) == refl);
}

/// Law: a dielectric with refractive index one passes a perpendicular
/// incoming ray straight through — for every reflectance draw, the scattered
/// direction equals the incoming direction and nothing is attenuated.
/// Perpendicular incidence is an incoming direction opposite a unit-length
/// front-face normal.
pub proof fn lemma_dielectric_unit_index_passthrough(
    r_in: Ray,
    rec: HitRecord,
    rv: Vec3,
    ru: i64,
)
    requires
        rec.front_face,
        dot_s(rec.normal, rec.normal) == FX_ONE,
        in_range_s(rec.normal, FX_ONE),
        r_in.dir == vneg_s(rec.normal),
        0 <= ru,
    ensures
        scatter_s(Material::Dielectric { refractive_index: FX_ONE }, r_in, rec, rv, ru) == Some(
            (Vec3 { x: FX_ONE, y: FX_ONE, z: FX_ONE }, Ray { orig: rec.p, dir: r_in.dir }),
        ),
{
    let n = rec.normal;
    let d = r_in.dir;
    lemma_fdiv_one(FX_ONE);
    // the incoming direction has the same squared length as the normal
    vstd::arithmetic::mul::lemma_mul_cancels_negatives(n.x as int, n.x as int);
    vstd::arithmetic::mul::lemma_mul_cancels_negatives(n.y as int, n.y as int);
    vstd::arithmetic::mul::lemma_mul_cancels_negatives(n.z as int, n.z as int);
    assert(fmul_s(d.x, d.x) == fmul_s(n.x, n.x));
    assert(fmul_s(d.y, d.y) == fmul_s(n.y, n.y));
    assert(fmul_s(d.z, d.z) == fmul_s(n.z, n.z));
    assert(dot_s(d, d) == FX_ONE);
    // its length is exactly one
    assert((FX_ONE as int) * (FX_ONE as int) == 0x1_0000_0000) by (nonlinear_arith);
    assert((FX_ONE as int + 1) * (FX_ONE as int + 1) > 0x1_0000_0000) by (nonlinear_arith);
    lemma_sqrt_unique(0x1_0000_0000, FX_ONE as int);
    assert(crate::vec3::length_s(d) == FX_ONE);
    // so normalization is the identity on it
    lemma_fdiv_one(d.x);
    lemma_fdiv_one(d.y);
    lemma_fdiv_one(d.z);
    let ud = unit_s(d);
    assert(ud == d);
    assert(vneg_s(ud) == n);
    // the cosine against the normal is exactly one, the sine exactly zero
    let cos = fclamp_s(dot_s(vneg_s(ud), n), fneg_s(FX_ONE), FX_ONE);
    assert(cos == FX_ONE);
    lemma_fmul_one(FX_ONE);
    assert(fabs_s(fsub_s(FX_ONE, fmul_s(cos, cos))) == 0);
    lemma_sqrt_unique(0, 0);
    assert(fsqrt_s(0) == 0);
    // no total internal reflection, and Schlick reflectance is exactly zero
    lemma_fmul_zero(FX_ONE);
    assert(fmul_s(FX_ONE, fsqrt_s(0)) == 0);
    assert(reflectance_s(FX_ONE, FX_ONE) == 0) by {
        vstd::arithmetic::div_mod::lemma_div_of0(fadd_s(FX_ONE, FX_ONE) as int);
        lemma_fmul_zero(0);
        assert(fdiv_s(0, fadd_s(FX_ONE, FX_ONE)) == 0);
        lemma_fmul_zero(fsub_s(FX_ONE, 0));
    }
    assert(!(reflectance_s(FX_ONE, FX_ONE) > ru));
    // the refracted direction is the incoming direction unchanged
    lemma_fmul_one(n.x);
    lemma_fmul_one(n.y);
    lemma_fmul_one(n.z);
    assert(vscale_s(n, FX_ONE) == n);
    let zv = vadd_s(ud, vscale_s(n, FX_ONE));
    assert(zv == (Vec3 { x: 0i64, y: 0i64, z: 0i64 }));
    lemma_fmul_zero(FX_ONE);
    assert(vscale_s(zv, FX_ONE) == zv) by {
        lemma_fmul_one(0);
    }
    assert(dot_s(zv, zv) == 0) by {
        lemma_fmul_zero(0);
    }
    assert(fabs_s(fsub_s(FX_ONE, 0)) == FX_ONE);
    assert(fsqrt_s(FX_ONE) == FX_ONE);
    lemma_fmul_neg_one(n.x);
    lemma_fmul_neg_one(n.y);
    lemma_fmul_neg_one(n.z);
    assert(vscale_s(n, fneg_s(FX_ONE)) == vneg_s(n));
    lemma_fadd_zero(fneg_s(n.x));
    lemma_fadd_zero(fneg_s(n.y));
    lemma_fadd_zero(fneg_s(n.z));
    assert(refract_s(ud, n, FX_ONE) == vneg_s(n));
    assert(refract_s(ud, n, FX_ONE) == r_in.dir);
}

} // verus!
