//! The scene: an ordered list of primitives over a material arena, and the
//! closest-hit query that aggregates them.

use vstd::prelude::*;
use crate::hit::HitRecord;
use crate::material::Material;
use crate::plane::{plane_hit_s, Plane};
use crate::ray::Ray;
use crate::rectanglexy::{rect_hit_s, RectangleXY};
use crate::sphere::{sphere_hit_s, Sphere};

verus! {

/// The closed set of renderable surfaces.
#[derive(Clone, Copy, PartialEq, Eq, Structural, Debug)]
pub enum Primitive {
    Sphere(Sphere),
    Plane(Plane),
    Rectangle(RectangleXY),
}

/// The material-arena index a primitive refers to.
pub open spec fn prim_mat(pr: Primitive) -> usize {
    match pr {
        Primitive::Sphere(s) => s.mat,
        Primitive::Plane(pl) => pl.mat,
        Primitive::Rectangle(rc) => rc.mat,
    }
}

/// The hit a single primitive reports for the given ray and window.
pub open spec fn prim_hit_s(pr: Primitive, r: Ray, t_min: i64, t_max: i64) -> Option<HitRecord> {
    match pr {
        Primitive::Sphere(s) => sphere_hit_s(s, r, t_min, t_max),
        Primitive::Plane(pl) => plane_hit_s(pl, r, t_min, t_max),
        Primitive::Rectangle(rc) => rect_hit_s(rc, r, t_min, t_max),
    }
}

pub fn prim_hit(pr: &Primitive, r: &Ray, t_min: i64, t_max: i64) -> (res: Option<HitRecord>)
    ensures
        res == prim_hit_s(*pr, *r, t_min, t_max),
{
    match pr {
        Primitive::Sphere(s) => s.hit(r, t_min, t_max),
        Primitive::Plane(pl) => pl.hit(r, t_min, t_max),
        Primitive::Rectangle(rc) => rc.hit(r, t_min, t_max),
    }
}

/// The closest hit among the first `n` primitives, by the standard
/// reduction: each accepted hit narrows the upper window for the rest, so a
/// later primitive wins only by hitting at least as close.
pub open spec fn hit_upto_s(
    prims: Seq<Primitive>,
    n: int,
    r: Ray,
    t_min: i64,
    t_max: i64,
) -> Option<HitRecord>
    decreases n,
{
    if n <= 0 {
        None
    } else {
        let prev = hit_upto_s(prims, n - 1, r, t_min, t_max);
        let window = match prev {
            Some(rec) => rec.t,
            None => t_max,
        };
        match prim_hit_s(prims[n - 1], r, t_min, window) {
            Some(rec) => Some(rec),
            None => prev,
        }
    }
}

/// The scene: primitives in insertion order, plus the material arena they
/// index into.
pub struct World {
    pub primitives: Vec<Primitive>,
    pub materials: Vec<Material>,
}

/// Every primitive's material index points into the arena, and every
/// material in the arena has well-formed parameters.
pub open spec fn world_wf(w: World) -> bool {
    &&& forall|i: int|
        0 <= i < w.primitives@.len() ==> prim_mat(#[trigger] w.primitives@[i])
            < w.materials@.len()
    &&& forall|i: int|
        0 <= i < w.materials@.len() ==> crate::material::mat_wf(#[trigger] w.materials@[i])
}

/// Every record that the closest-hit reduction can report carries the
/// material index of one of the primitives it scanned.
proof fn lemma_hit_upto_mat(prims: Seq<Primitive>, n: int, r: Ray, t_min: i64, t_max: i64)
    requires
        n <= prims.len(),
    ensures
        hit_upto_s(prims, n, r, t_min, t_max) matches Some(rec) ==> exists|i: int|
            0 <= i < n && rec.mat == prim_mat(#[trigger] prims[i]),
    decreases n,
{
    if n > 0 {
        lemma_hit_upto_mat(prims, n - 1, r, t_min, t_max);
        let prev = hit_upto_s(prims, n - 1, r, t_min, t_max);
        let window = match prev {
            Some(rec) => rec.t,
            None => t_max,
        };
        match prim_hit_s(prims[n - 1], r, t_min, window) {
            Some(rec) => {
                assert(rec.mat == prim_mat(prims[n - 1]));
            },
            None => {},
        }
    }
}

impl World {
    pub fn new() -> (w: World)
        ensures
            w.primitives@.len() == 0,
            w.materials@.len() == 0,
            world_wf(w),
    {
        World { primitives: Vec::new(), materials: Vec::new() }
    }

    /// Add a material to the arena and return its index.
    pub fn add_material(&mut self, m: Material) -> (idx: usize)
        requires
            crate::material::mat_wf(m),
        ensures
            final(self).materials@ == old(self).materials@.push(m),
            final(self).primitives@ == old(self).primitives@,
            idx == old(self).materials@.len(),
            world_wf(*old(self)) ==> world_wf(*final(self)),
    {
        let idx = self.materials.len();
        self.materials.push(m);
        idx
    }

    /// Append a primitive; its material index must point into the arena.
    pub fn push(&mut self, pr: Primitive)
        requires
            prim_mat(pr) < old(self).materials@.len(),
        ensures
            final(self).primitives@ == old(self).primitives@.push(pr),
            final(self).materials@ == old(self).materials@,
            world_wf(*old(self)) ==> world_wf(*final(self)),
    {
        self.primitives.push(pr);
    }

    pub fn material_at(&self, idx: usize) -> (m: Material)
        requires
            idx < self.materials@.len(),
        ensures
            m == self.materials@[idx as int],
    {
        self.materials[idx]
    }

    /// The closest valid hit over all primitives, or none.
    pub fn hit(&self, r: &Ray, t_min: i64, t_max: i64) -> (res: Option<HitRecord>)
        ensures
            res == hit_upto_s(self.primitives@, self.primitives@.len() as int, *r, t_min, t_max),
            world_wf(*self) ==> (res matches Some(rec) ==> rec.mat < self.materials@.len()),
    {
        let mut best: Option<HitRecord> = None;
        let mut closest: i64 = t_max;
        let n = self.primitives.len();
        let mut i: usize = 0;
        while i < n
            invariant
                i <= n,
                n == self.primitives@.len(),
                best == hit_upto_s(self.primitives@, i as int, *r, t_min, t_max),
                closest == (match best {
                    Some(rec) => rec.t,
                    None => t_max,
                }),
            decreases n - i,
        {
            match prim_hit(&self.primitives[i], r, t_min, closest) {
                Some(rec) => {
                    closest = rec.t;
                    best = Some(rec);
                },
                None => {},
            }
            i = i + 1;
        }
        proof {
            if world_wf(*self) {
                lemma_hit_upto_mat(
                    self.primitives@,
                    self.primitives@.len() as int,
                    *r,
                    t_min,
                    t_max,
                );
            }
        }
        best
    }
}

} // verus!
