//! A parametric line: origin plus scaled direction.

use vstd::prelude::*;
use crate::vec3::{vadd_s, vscale_s, Vec3};

verus! {

/// A ray: origin plus a direction, not necessarily normalized.
#[derive(Clone, Copy, PartialEq, Eq, Structural, Debug)]
pub struct Ray {
    pub orig: Vec3,
    pub dir: Vec3,
}

/// The point at parameter `t`: `origin + t * direction`.
pub open spec fn at_s(r: Ray, t: i64) -> Vec3 {
    vadd_s(r.orig, vscale_s(r.dir, t))
}

impl Ray {
    pub fn new(orig: Vec3, dir: Vec3) -> (r: Ray)
        ensures
            r == (Ray { orig, dir }),
    {
        Ray { orig, dir }
    }

    pub fn origin(&self) -> (r: Vec3)
        ensures
            r == self.orig,
    {
        self.orig
    }

    pub fn direction(&self) -> (r: Vec3)
        ensures
            r == self.dir,
    {
        self.dir
    }

    pub fn at(&self, t: i64) -> (p: Vec3)
        ensures
            p == at_s(*self, t),
    {
        self.orig.add(self.dir.scale(t))
    }
}

} // verus!
