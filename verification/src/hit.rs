//! The transient result of a successful intersection query.

use vstd::prelude::*;
use crate::vec3::Vec3;

verus! {

/// One surface hit: ray parameter, world-space point, oriented normal,
/// which side the ray came from, and the index of the hit material in the
/// world's material arena.
#[derive(Clone, Copy, PartialEq, Eq, Structural, Debug)]
pub struct HitRecord {
    pub t: i64,
    pub p: Vec3,
    pub normal: Vec3,
    pub front_face: bool,
    pub mat: usize,
}

} // verus!
