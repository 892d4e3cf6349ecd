//! Three-component fixed-point vectors, used for points, directions and
//! colors. Every executable operation is pinned to a spec-level mirror, so
//! contracts elsewhere can speak of vector arithmetic exactly.

use vstd::prelude::*;
use crate::fx::{
    fadd, fadd_s, fdiv, fdiv_s, fmin_s, fmul, fmul_s, fneg, fneg_s, fsqrt, fsqrt_s, fsub, fsub_s,
    iabs, FX_ONE,
};
use vstd::arithmetic::div_mod::lemma_div_pos_is_pos;

verus! {

/// One real-valued 3-tuple: a point, a direction or a color, with components
/// in fixed point.
#[derive(Clone, Copy, PartialEq, Eq, Structural, Debug)]
pub struct Vec3 {
    pub x: i64,
    pub y: i64,
    pub z: i64,
}

pub open spec fn vadd_s(a: Vec3, b: Vec3) -> Vec3 {
    Vec3 { x: fadd_s(a.x, b.x), y: fadd_s(a.y, b.y), z: fadd_s(a.z, b.z) }
}

pub open spec fn vsub_s(a: Vec3, b: Vec3) -> Vec3 {
    Vec3 { x: fsub_s(a.x, b.x), y: fsub_s(a.y, b.y), z: fsub_s(a.z, b.z) }
}

pub open spec fn vneg_s(a: Vec3) -> Vec3 {
    Vec3 { x: fneg_s(a.x), y: fneg_s(a.y), z: fneg_s(a.z) }
}

pub open spec fn vscale_s(a: Vec3, k: i64) -> Vec3 {
    Vec3 { x: fmul_s(a.x, k), y: fmul_s(a.y, k), z: fmul_s(a.z, k) }
}

/// Component-wise product, the color attenuation operation.
pub open spec fn vhadamard_s(a: Vec3, b: Vec3) -> Vec3 {
    Vec3 { x: fmul_s(a.x, b.x), y: fmul_s(a.y, b.y), z: fmul_s(a.z, b.z) }
}

pub open spec fn dot_s(a: Vec3, b: Vec3) -> i64 {
    fadd_s(fadd_s(fmul_s(a.x, b.x), fmul_s(a.y, b.y)), fmul_s(a.z, b.z))
}

pub open spec fn length_s(a: Vec3) -> i64 {
    fsqrt_s(dot_s(a, a))
}

/// Normalization; the zero vector, which has no direction, is returned
/// unchanged so that the operation is total.
pub open spec fn unit_s(a: Vec3) -> Vec3 {
    if length_s(a) == 0 {
        a
    } else {
        Vec3 {
            x: fdiv_s(a.x, length_s(a)),
            y: fdiv_s(a.y, length_s(a)),
            z: fdiv_s(a.z, length_s(a)),
        }
    }
}

/// Cross product, used for the camera's orthonormal basis.
pub open spec fn cross_s(a: Vec3, b: Vec3) -> Vec3 {
    Vec3 {
        x: fsub_s(fmul_s(a.y, b.z), fmul_s(a.z, b.y)),
        y: fsub_s(fmul_s(a.z, b.x), fmul_s(a.x, b.z)),
        z: fsub_s(fmul_s(a.x, b.y), fmul_s(a.y, b.x)),
    }
}

/// Mirror reflection of `v` about the surface normal `n`.
pub open spec fn reflect_s(v: Vec3, n: Vec3) -> Vec3 {
    vsub_s(v, vscale_s(n, fmul_s(131072, dot_s(v, n))))
}

/// A vector too small to define a scatter direction: exactly zero on the
/// fixed-point grid.
pub open spec fn near_zero_s(a: Vec3) -> bool {
    a.x == 0 && a.y == 0 && a.z == 0
}

/// All components at most `b` in magnitude.
pub open spec fn in_range_s(a: Vec3, b: i64) -> bool {
    iabs(a.x as int) <= b && iabs(a.y as int) <= b && iabs(a.z as int) <= b
}

pub proof fn lemma_fmul_self_nonneg(a: i64)
    ensures
        fmul_s(a, a) >= 0,
{
    assert(a as int * a as int >= 0) by (nonlinear_arith);
    lemma_div_pos_is_pos(iabs(a as int * a as int), FX_ONE as int);
}

pub proof fn lemma_dot_self_nonneg(v: Vec3)
    ensures
        dot_s(v, v) >= 0,
{
    lemma_fmul_self_nonneg(v.x);
    lemma_fmul_self_nonneg(v.y);
    lemma_fmul_self_nonneg(v.z);
}

impl Vec3 {
    pub fn new(x: i64, y: i64, z: i64) -> (r: Vec3)
        ensures
            r == (Vec3 { x, y, z }),
    {
        Vec3 { x, y, z }
    }

    pub fn add(self, o: Vec3) -> (r: Vec3)
        ensures
            r == vadd_s(self, o),
    {
        Vec3 { x: fadd(self.x, o.x), y: fadd(self.y, o.y), z: fadd(self.z, o.z) }
    }

    pub fn sub(self, o: Vec3) -> (r: Vec3)
        ensures
            r == vsub_s(self, o),
    {
        Vec3 { x: fsub(self.x, o.x), y: fsub(self.y, o.y), z: fsub(self.z, o.z) }
    }

    pub fn neg(self) -> (r: Vec3)
        ensures
            r == vneg_s(self),
    {
        Vec3 { x: fneg(self.x), y: fneg(self.y), z: fneg(self.z) }
    }

    pub fn scale(self, k: i64) -> (r: Vec3)
        ensures
            r == vscale_s(self, k),
    {
        Vec3 { x: fmul(self.x, k), y: fmul(self.y, k), z: fmul(self.z, k) }
    }

    pub fn hadamard(self, o: Vec3) -> (r: Vec3)
        ensures
            r == vhadamard_s(self, o),
    {
        Vec3 { x: fmul(self.x, o.x), y: fmul(self.y, o.y), z: fmul(self.z, o.z) }
    }

    pub fn dot(self, o: Vec3) -> (r: i64)
        ensures
            r == dot_s(self, o),
    {
        fadd(fadd(fmul(self.x, o.x), fmul(self.y, o.y)), fmul(self.z, o.z))
    }

    pub fn length_squared(self) -> (r: i64)
        ensures
            r == dot_s(self, self),
            r >= 0,
    {
        proof {
            lemma_dot_self_nonneg(self);
        }
        self.dot(self)
    }

    pub fn length(self) -> (r: i64)
        ensures
            r == length_s(self),
            r >= 0,
    {
        fsqrt(self.length_squared())
    }

    pub fn normalized(self) -> (r: Vec3)
        ensures
            r == unit_s(self),
    {
        let len: i64 = self.length();
        if len == 0 {
            self
        } else {
            Vec3 { x: fdiv(self.x, len), y: fdiv(self.y, len), z: fdiv(self.z, len) }
        }
    }

    pub fn near_zero(self) -> (r: bool)
        ensures
            r == near_zero_s(self),
    {
        self.x == 0 && self.y == 0 && self.z == 0
    }
}

pub fn cross(a: Vec3, b: Vec3) -> (r: Vec3)
    ensures
        r == cross_s(a, b),
{
    Vec3 {
        x: fsub(fmul(a.y, b.z), fmul(a.z, b.y)),
        y: fsub(fmul(a.z, b.x), fmul(a.x, b.z)),
        z: fsub(fmul(a.x, b.y), fmul(a.y, b.x)),
    }
}

/// Mirror reflection about a normal, `v - 2 * dot(v, n) * n`.
pub fn reflect(v: Vec3, n: Vec3) -> (r: Vec3)
    ensures
        r == reflect_s(v, n),
{
    v.sub(n.scale(fmul(131072, v.dot(n))))
}

/// Refraction of the unit direction `uv` at a surface with normal `n`, for
/// the given ratio of refractive indices, by the standard vector formula.
pub open spec fn refract_s(uv: Vec3, n: Vec3, ratio: i64) -> Vec3 {
    let cos = fmin_s(dot_s(vneg_s(uv), n), FX_ONE);
    let perp = vscale_s(vadd_s(uv, vscale_s(n, cos)), ratio);
    let k = crate::fx::fabs_s(fsub_s(FX_ONE, dot_s(perp, perp)));
    let par = vscale_s(n, fneg_s(fsqrt_s(k)));
    vadd_s(perp, par)
}

pub fn refract(uv: Vec3, n: Vec3, ratio: i64) -> (r: Vec3)
    ensures
        r == refract_s(uv, n, ratio),
{
    let cos: i64 = crate::fx::fmin(uv.neg().dot(n), FX_ONE);
    let perp: Vec3 = uv.add(n.scale(cos)).scale(ratio);
    let k: i64 = crate::fx::fabs(fsub(FX_ONE, perp.dot(perp)));
    let par: Vec3 = n.scale(fneg(fsqrt(k)));
    perp.add(par)
}

} // verus!
