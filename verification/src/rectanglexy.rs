//! Axis-aligned rectangle in a plane of constant z, a deliberately simple
//! primitive: the reported normal is the zero vector and `front_face` is
//! always false.

use vstd::prelude::*;
use crate::fx::{fdiv, fdiv_s, fsub, fsub_s};
use crate::hit::HitRecord;
use crate::ray::Ray;
use crate::vec3::{vadd_s, vscale_s, Vec3};

verus! {

/// An xy-rectangle at the z of `min_point`, spanned between the x and y
/// coordinates of its two corner points.
#[derive(Clone, Copy, PartialEq, Eq, Structural, Debug)]
pub struct RectangleXY {
    pub min_point: Vec3,
    pub max_point: Vec3,
    pub mat: usize,
}

/// Rectangle intersection: solve for the parameter where the ray reaches
/// the rectangle's z, reject a parameter outside the caller's window, then
/// test the hit point against the x and y bounds. A ray parallel to the
/// plane (zero z direction) reports no hit.
pub open spec fn rect_hit_s(rc: RectangleXY, r: Ray, t_min: i64, t_max: i64) -> Option<
    HitRecord,
> {
    if r.dir.z == 0 {
        None
    } else {
        let t = fdiv_s(fsub_s(rc.min_point.z, r.orig.z), r.dir.z);
        let p = vadd_s(r.orig, vscale_s(r.dir, t));
        if t_min <= t && t <= t_max && p.x <= rc.max_point.x && p.x >= rc.min_point.x && p.y
            <= rc.max_point.y && p.y >= rc.min_point.y {
            Some(
                HitRecord {
                    t,
                    p,
                    normal: Vec3 { x: 0, y: 0, z: 0 },
                    front_face: false,
                    mat: rc.mat,
                },
            )
        } else {
            None
        }
    }
}

impl RectangleXY {
    pub fn new(min_point: Vec3, max_point: Vec3, mat: usize) -> (rc: RectangleXY)
        ensures
            rc == (RectangleXY { min_point, max_point, mat }),
    {
        RectangleXY { min_point, max_point, mat }
    }

    /// A hit is reported only inside the caller's `[t_min, t_max]` window,
    /// so the closest-hit reduction and the self-intersection guard hold
    /// for this primitive as for the others.
    pub fn hit(&self, r: &Ray, t_min: i64, t_max: i64) -> (res: Option<HitRecord>)
        ensures
            res == rect_hit_s(*self, *r, t_min, t_max),
    {
        if r.dir.z == 0 {
            return None;
        }
        let t = fdiv(fsub(self.min_point.z, r.orig.z), r.dir.z);
        let p = r.orig.add(r.dir.scale(t));
        if t_min <= t && t <= t_max && p.x <= self.max_point.x && p.x >= self.min_point.x && p.y
            <= self.max_point.y && p.y >= self.min_point.y {
            Some(
                HitRecord {
                    t,
                    p,
                    normal: Vec3::new(0, 0, 0),
                    front_face: false,
                    mat: self.mat,
                },
            )
        } else {
            None
        }
    }
}

} // verus!
