//! Bounded plane segment: an infinite plane given by a normal and a
//! reference point, clipped to the parallelogram spanned by two diagonal
//! corner points.
//!
//! The plane equation is solved with the component-sum projection
//! `scalar(v) = v.x + v.y + v.z` applied to component-wise products, a
//! deliberate simplification that is faithful only for axis-aligned unit
//! normals; it is kept exactly as stated, not generalized to a dot product.
//! Likewise the reported record always carries the configured normal with
//! `front_face == false`, a known one-sided simplification that is kept.

use vstd::prelude::*;
use crate::fx::{fadd, fadd_s, fdiv, fdiv_s, fneg, fneg_s, fsub, fsub_s};
use crate::hit::HitRecord;
use crate::ray::{at_s, Ray};
use crate::vec3::{vhadamard_s, vsub_s, Vec3};

verus! {

/// The component-sum projection used by the plane equation.
pub open spec fn scalar_s(p: Vec3) -> i64 {
    fadd_s(fadd_s(p.x, p.y), p.z)
}

pub fn scalar(p: Vec3) -> (r: i64)
    ensures
        r == scalar_s(p),
{
    fadd(fadd(p.x, p.y), p.z)
}

/// The bounded-segment tolerance: about one hundredth of a unit, so
/// boundary-grazing hits are not discarded to rounding.
pub const PLANE_EPS: i64 = 655;

/// Whether `p` lies between `x1` and `x2` (in either order), within the
/// segment tolerance.
pub open spec fn between_s(x1: i64, x2: i64, p: i64) -> bool {
    if x1 < x2 {
        x1 <= fadd_s(p, PLANE_EPS) && fsub_s(p, PLANE_EPS) <= x2
    } else {
        x2 <= fadd_s(p, PLANE_EPS) && fsub_s(p, PLANE_EPS) <= x1
    }
}

pub fn between(x1: i64, x2: i64, p: i64) -> (r: bool)
    ensures
        r == between_s(x1, x2, p),
{
    if x1 < x2 {
        x1 <= fadd(p, PLANE_EPS) && fsub(p, PLANE_EPS) <= x2
    } else {
        x2 <= fadd(p, PLANE_EPS) && fsub(p, PLANE_EPS) <= x1
    }
}

/// Both corner points satisfy the same plane equation: their projections
/// onto the normal agree. A plane may only be constructed from such a pair.
pub open spec fn plane_wf(normal: Vec3, point1: Vec3, point2: Vec3) -> bool {
    scalar_s(vhadamard_s(normal, point1)) == scalar_s(vhadamard_s(normal, point2))
}

/// A bounded plane segment: its normal, the two diagonal corner points, and
/// the index of its material in the world's arena.
#[derive(Clone, Copy, PartialEq, Eq, Structural, Debug)]
pub struct Plane {
    pub normal: Vec3,
    pub point1: Vec3,
    pub point2: Vec3,
    pub mat: usize,
}

/// Plane intersection: solve the linear plane equation for the ray
/// parameter, reject a parallel ray (zero denominator) and a parameter
/// outside the window, then clip the hit point to the diagonal bounds.
pub open spec fn plane_hit_s(pl: Plane, r: Ray, t_min: i64, t_max: i64) -> Option<HitRecord> {
    let frac_top = fneg_s(
        scalar_s(vsub_s(vhadamard_s(pl.normal, r.orig), vhadamard_s(pl.normal, pl.point1))),
    );
    let frac_bottom = scalar_s(vhadamard_s(pl.normal, r.dir));
    if frac_bottom == 0 {
        None
    } else {
        let root = fdiv_s(frac_top, frac_bottom);
        if root < t_min || root > t_max {
            None
        } else {
            let p = at_s(r, root);
            if between_s(pl.point1.x, pl.point2.x, p.x) && between_s(
                pl.point1.y,
                pl.point2.y,
                p.y,
            ) && between_s(pl.point1.z, pl.point2.z, p.z) {
                Some(
                    HitRecord {
                        t: root,
                        p,
                        normal: pl.normal,
                        front_face: false,
                        mat: pl.mat,
                    },
                )
            } else {
                None
            }
        }
    }
}

impl Plane {
    /// Construction demands that the two corner points fall on the same
    /// plane; a pair that does not is a fatal configuration error, which the
    /// caller must rule out before construction.
    pub fn new(normal: Vec3, point1: Vec3, point2: Vec3, mat: usize) -> (pl: Plane)
        requires
            plane_wf(normal, point1, point2),
        ensures
            pl == (Plane { normal, point1, point2, mat }),
    {
        Plane { normal, point1, point2, mat }
    }

    pub fn hit(&self, r: &Ray, t_min: i64, t_max: i64) -> (res: Option<HitRecord>)
        ensures
            res == plane_hit_s(*self, *r, t_min, t_max),
    {
        let frac_top = fneg(
            scalar(self.normal.hadamard(r.orig).sub(self.normal.hadamard(self.point1))),
        );
        let frac_bottom = scalar(self.normal.hadamard(r.dir));
        if frac_bottom == 0 {
            return None;
        }
        let root = fdiv(frac_top, frac_bottom);
        if root < t_min || root > t_max {
            return None;
        }
        let p = r.at(root);
        if between(self.point1.x, self.point2.x, p.x) && between(self.point1.y, self.point2.y, p.y)
            && between(self.point1.z, self.point2.z, p.z) {
            Some(HitRecord { t: root, p, normal: self.normal, front_face: false, mat: self.mat })
        } else {
            None
        }
    }
}

} // verus!
