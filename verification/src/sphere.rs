//! Sphere primitive and its closed-form ray intersection.

use vstd::prelude::*;
use crate::fx::{
    fadd, fadd_s, fdiv, fdiv_s, fmul, fmul_s, fneg, fneg_s, fsqrt, fsqrt_s, fsub, fsub_s, iabs,
    is_sqrt, lemma_fdiv_one, lemma_fmul_one, lemma_fmul_zero, sqrt_floor,
    FX_BIG, FX_ONE,
};
use crate::hit::HitRecord;
use crate::ray::{at_s, Ray};
use crate::vec3::{dot_s, vneg_s, vsub_s, Vec3};

verus! {

/// A sphere: center, radius and the index of its material in the world's
/// arena. A negative radius is allowed and flips the reported normal, the
/// usual trick for hollow glass shells.
#[derive(Clone, Copy, PartialEq, Eq, Structural, Debug)]
pub struct Sphere {
    pub center: Vec3,
    pub radius: i64,
    pub mat: usize,
}

/// The outward normal at a surface point: `(p - center) / radius`.
pub open spec fn outward_normal_s(s: Sphere, p: Vec3) -> Vec3 {
    Vec3 {
        x: fdiv_s(fsub_s(p.x, s.center.x), s.radius),
        y: fdiv_s(fsub_s(p.y, s.center.y), s.radius),
        z: fdiv_s(fsub_s(p.z, s.center.z), s.radius),
    }
}

/// The record reported for a hit at parameter `root`, with the normal
/// oriented against the incoming ray.
pub open spec fn sphere_rec_s(s: Sphere, r: Ray, root: i64) -> HitRecord {
    let p = at_s(r, root);
    let outward = outward_normal_s(s, p);
    let front = dot_s(r.dir, outward) < 0;
    HitRecord {
        t: root,
        p,
        normal: if front {
            outward
        } else {
            vneg_s(outward)
        },
        front_face: front,
        mat: s.mat,
    }
}

/// Sphere intersection by the reduced-discriminant quadratic: the nearer
/// root is preferred, the farther tried when the nearer falls outside the
/// `[t_min, t_max]` window. Degenerate inputs (a zero-length direction or a
/// zero radius, which has no surface) report no hit.
pub open spec fn sphere_hit_s(s: Sphere, r: Ray, t_min: i64, t_max: i64) -> Option<HitRecord> {
    let oc = vsub_s(r.orig, s.center);
    let a = dot_s(r.dir, r.dir);
    let half_b = dot_s(oc, r.dir);
    let c = fsub_s(dot_s(oc, oc), fmul_s(s.radius, s.radius));
    let disc = fsub_s(fmul_s(half_b, half_b), fmul_s(a, c));
    if disc < 0 || a == 0 || s.radius == 0 {
        None
    } else {
        let sq = fsqrt_s(disc);
        let root1 = fdiv_s(fsub_s(fneg_s(half_b), sq), a);
        let root2 = fdiv_s(fadd_s(fneg_s(half_b), sq), a);
        if t_min <= root1 && root1 <= t_max {
            Some(sphere_rec_s(s, r, root1))
        } else if t_min <= root2 && root2 <= t_max {
            Some(sphere_rec_s(s, r, root2))
        } else {
            None
        }
    }
}

impl Sphere {
    pub fn new(center: Vec3, radius: i64, mat: usize) -> (s: Sphere)
        ensures
            s == (Sphere { center, radius, mat }),
    {
        Sphere { center, radius, mat }
    }

    pub fn hit(&self, r: &Ray, t_min: i64, t_max: i64) -> (res: Option<HitRecord>)
        ensures
            res == sphere_hit_s(*self, *r, t_min, t_max),
    {
        let oc = r.orig.sub(self.center);
        let a = r.dir.dot(r.dir);
        let half_b = oc.dot(r.dir);
        let c = fsub(oc.dot(oc), fmul(self.radius, self.radius));
        let disc = fsub(fmul(half_b, half_b), fmul(a, c));
        if disc < 0 || a == 0 || self.radius == 0 {
            return None;
        }
        let sq = fsqrt(disc);
        let mut root = fdiv(fsub(fneg(half_b), sq), a);
        if root < t_min || root > t_max {
            root = fdiv(fadd(fneg(half_b), sq), a);
            if root < t_min || root > t_max {
                return None;
            }
        }
        let p = r.at(root);
        let outward = Vec3::new(
            fdiv(fsub(p.x, self.center.x), self.radius),
            fdiv(fsub(p.y, self.center.y), self.radius),
            fdiv(fsub(p.z, self.center.z), self.radius),
        );
        let front = r.dir.dot(outward) < 0;
        let normal = if front {
            outward
        } else {
            outward.neg()
        };
        Some(HitRecord { t: root, p, normal, front_face: front, mat: self.mat })
    }
}

/// Law: in every reported sphere hit, `front_face` is exactly the sign of
/// the incoming direction against the outward normal at the hit point, and
/// `normal` is that outward normal, negated when the ray comes from inside.
pub proof fn lemma_sphere_hit_orientation(s: Sphere, r: Ray, t_min: i64, t_max: i64)
    ensures
        sphere_hit_s(s, r, t_min, t_max) matches Some(rec) ==> {
            let outward = outward_normal_s(s, rec.p);
            &&& rec.front_face == (dot_s(r.dir, outward) < 0)
            &&& rec.normal == (if rec.front_face {
                outward
            } else {
                vneg_s(outward)
            })
        },
{
}

/// Law: a ray cast from the center of a sphere of positive radius with a
/// unit-length direction hits it, at a parameter within one grid step of the
/// radius (in real arithmetic the parameter is radius / |direction|; the
/// fixed-point square root rounds by at most one step). The radius must
/// exceed half a unit for the rounding bound to hold.
pub proof fn lemma_center_ray_hits(s: Sphere, r: Ray, t_min: i64, t_max: i64)
    requires
        r.orig == s.center,
        dot_s(r.dir, r.dir) == FX_ONE,
        32769 <= s.radius,
        s.radius <= 0x8000_0000,
        0 <= t_min,
        t_min <= s.radius - 1,
        s.radius <= t_max,
    ensures
        sphere_hit_s(s, r, t_min, t_max) matches Some(rec) && s.radius - 1 <= rec.t <= s.radius,
{
    let rad = s.radius as int;
    let sscale = FX_ONE as int;
    // the center offset is exactly zero, so half_b = 0 and c = -radius^2/S
    let oc = vsub_s(r.orig, s.center);
    assert(oc == (Vec3 { x: 0i64, y: 0i64, z: 0i64 }));
    lemma_fmul_zero(r.dir.x);
    lemma_fmul_zero(r.dir.y);
    lemma_fmul_zero(r.dir.z);
    lemma_fmul_zero(0);
    assert(dot_s(oc, r.dir) == 0);
    assert(dot_s(oc, oc) == 0);
    // the squared radius in fixed point, without saturation
    assert(rad * rad >= 0) by (nonlinear_arith);
    assert(rad * rad <= 0x8000_0000 * 0x8000_0000) by (nonlinear_arith)
        requires
            0 <= rad <= 0x8000_0000;
    assert(iabs(rad * rad) == rad * rad);
    let m = (rad * rad) / sscale;
    vstd::arithmetic::div_mod::lemma_div_pos_is_pos(rad * rad, sscale);
    vstd::arithmetic::div_mod::lemma_div_is_ordered(rad * rad, 0x4000_0000_0000_0000, sscale);
    assert(m <= (0x4000_0000_0000_0000 as int) / (0x10000 as int));
    assert(fmul_s(s.radius, s.radius) == m);
    let c = fsub_s(0, fmul_s(s.radius, s.radius));
    assert(c == crate::fx::sat64(-m)) by {
        assert(-m >= -(FX_BIG as int));
    }
    lemma_fmul_one((-m) as i64);
    let disc = fsub_s(fmul_s(0, 0), fmul_s(FX_ONE, c));
    assert(disc == m as i64);
    // bounds on the fixed-point square root of the discriminant
    vstd::arithmetic::div_mod::lemma_fundamental_div_mod(rad * rad, sscale);
    vstd::arithmetic::div_mod::lemma_mod_bound(rad * rad, sscale);
    vstd::arithmetic::mul::lemma_mul_is_commutative(sscale, m);
    assert(m * sscale <= rad * rad);
    assert(m * sscale > rad * rad - sscale);
    assert((rad - 1) * (rad - 1) <= rad * rad - sscale) by (nonlinear_arith)
        requires
            32769 <= rad,
            sscale == 0x10000;
    let sq = sqrt_floor(m * sscale);
    assert(is_sqrt(m * sscale, sq)) by {
        lemma_sqrt_exists(m * sscale);
    }
    assert(sq >= rad - 1) by (nonlinear_arith)
        requires
            is_sqrt(m * sscale, sq),
            (rad - 1) * (rad - 1) <= m * sscale,
            0 <= rad - 1;
    assert(sq <= rad) by (nonlinear_arith)
        requires
            is_sqrt(m * sscale, sq),
            m * sscale <= rad * rad,
            0 <= rad;
    assert(fsqrt_s(disc) == sq as i64);
    // the nearer root is negative and rejected; the farther is the answer
    lemma_fdiv_one(fsub_s(fneg_s(0), sq as i64));
    lemma_fdiv_one(fadd_s(fneg_s(0), sq as i64));
    let root1 = fdiv_s(fsub_s(fneg_s(0), sq as i64), FX_ONE);
    assert(root1 == crate::fx::sat64(-sq));
    assert(root1 < t_min);
    let root2 = fdiv_s(fadd_s(fneg_s(0), sq as i64), FX_ONE);
    assert(root2 == sq as i64);
    assert(t_min <= root2 && root2 <= t_max);
}

/// A nonnegative integer has an integer square root.
pub proof fn lemma_sqrt_exists(n: int)
    requires
        n >= 0,
    ensures
        is_sqrt(n, sqrt_floor(n)),
    decreases n,
{
    if n == 0 {
        assert(is_sqrt(0, 0));
    } else {
        lemma_sqrt_exists(n - 1);
        let q = sqrt_floor(n - 1);
        if (q + 1) * (q + 1) <= n {
            assert(is_sqrt(n, q + 1)) by (nonlinear_arith)
                requires
                    is_sqrt(n - 1, q),
                    (q + 1) * (q + 1) <= n;
        } else {
            assert(is_sqrt(n, q));
        }
    }
    assert(exists|r: int| is_sqrt(n, r));
}

} // verus!
