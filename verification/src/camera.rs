//! The camera: an immutable viewport geometry derived once from the view
//! parameters, and jittered ray generation with defocus blur.
//!
//! The one transcendental in the derivation, the tangent of half the
//! vertical field of view, cannot be computed in fixed point here; the
//! caller supplies it as `tan_half_vfov` and everything after it is derived
//! and verified in fixed point.

use vstd::prelude::*;
use crate::fx::{fmul, fmul_s, lemma_fmul_zero};
use crate::ray::Ray;
use crate::rng::{in_disk_s, random_in_unit_disk, Rng};
use crate::vec3::{cross, cross_s, unit_s, vadd_s, vscale_s, vsub_s, Vec3};

verus! {

/// The view parameters a camera is derived from.
#[derive(Clone, Copy, PartialEq, Eq, Structural, Debug)]
pub struct CameraInit {
    pub look_from: Vec3,
    pub look_at: Vec3,
    pub vup: Vec3,
    /// Tangent of half the vertical field of view.
    pub tan_half_vfov: i64,
    pub aspect_ratio: i64,
    /// Lens diameter.
    pub aperture: i64,
    pub focus_dist: i64,
}

/// The derived viewport geometry, never mutated after construction.
#[derive(Clone, Copy, PartialEq, Eq, Structural, Debug)]
pub struct Camera {
    pub origin: Vec3,
    pub lower_left_corner: Vec3,
    pub horizontal: Vec3,
    pub vertical: Vec3,
    pub u: Vec3,
    pub v: Vec3,
    pub w: Vec3,
    pub lens_radius: i64,
}

/// The full camera derivation: viewport extents scaled by the focus
/// distance, the orthonormal view basis, and the lens radius as half the
/// aperture.
pub open spec fn camera_s(c: CameraInit) -> Camera {
    let viewport_height = fmul_s(131072, c.tan_half_vfov);
    let viewport_width = fmul_s(c.aspect_ratio, viewport_height);
    let w = unit_s(vsub_s(c.look_from, c.look_at));
    let u = unit_s(cross_s(c.vup, w));
    let v = cross_s(w, u);
    let horizontal = vscale_s(u, fmul_s(viewport_width, c.focus_dist));
    let vertical = vscale_s(v, fmul_s(viewport_height, c.focus_dist));
    let lower_left_corner = vsub_s(
        vsub_s(vsub_s(c.look_from, vscale_s(horizontal, 32768)), vscale_s(vertical, 32768)),
        vscale_s(w, c.focus_dist),
    );
    Camera {
        origin: c.look_from,
        lower_left_corner,
        horizontal,
        vertical,
        u,
        v,
        w,
        lens_radius: fmul_s(c.aperture, 32768),
    }
}

/// The ray through normalized screen coordinates `(s, t)` for one concrete
/// lens-disk sample `d`.
pub open spec fn get_ray_s(cam: Camera, s: i64, t: i64, d: Vec3) -> Ray {
    let rd = vscale_s(d, cam.lens_radius);
    let offset = vadd_s(vscale_s(cam.u, rd.x), vscale_s(cam.v, rd.y));
    Ray {
        orig: vadd_s(cam.origin, offset),
        dir: vsub_s(
            vsub_s(
                vadd_s(vadd_s(cam.lower_left_corner, vscale_s(cam.horizontal, s)), vscale_s(
                    cam.vertical,
                    t,
                )),
                cam.origin,
            ),
            offset,
        ),
    }
}

impl Camera {
    pub fn new(c: &CameraInit) -> (cam: Camera)
        ensures
            cam == camera_s(*c),
    {
        let viewport_height = fmul(131072, c.tan_half_vfov);
        let viewport_width = fmul(c.aspect_ratio, viewport_height);
        let w = c.look_from.sub(c.look_at).normalized();
        let u = cross(c.vup, w).normalized();
        let v = cross(w, u);
        let horizontal = u.scale(fmul(viewport_width, c.focus_dist));
        let vertical = v.scale(fmul(viewport_height, c.focus_dist));
        let lower_left_corner = c
            .look_from
            .sub(horizontal.scale(32768))
            .sub(vertical.scale(32768))
            .sub(w.scale(c.focus_dist));
        Camera {
            origin: c.look_from,
            lower_left_corner,
            horizontal,
            vertical,
            u,
            v,
            w,
            lens_radius: fmul(c.aperture, 32768),
        }
    }

    /// The ray for screen coordinates `(s, t)`, its origin jittered across
    /// the lens disk for defocus blur. With a pinhole lens (radius zero) the
    /// ray is a function of `(s, t)` alone.
    pub fn get_ray(&self, s: i64, t: i64, rng: &mut Rng) -> (r: Ray)
        ensures
            exists|d: Vec3| in_disk_s(d) && r == get_ray_s(*self, s, t, d),
            self.lens_radius == 0 ==> r == get_ray_s(
                *self,
                s,
                t,
                Vec3 { x: 0, y: 0, z: 0 },
            ),
    {
        let d = random_in_unit_disk(rng);
        let rd = d.scale(self.lens_radius);
        let offset = self.u.scale(rd.x).add(self.v.scale(rd.y));
        let orig = self.origin.add(offset);
        let dir = self
            .lower_left_corner
            .add(self.horizontal.scale(s))
            .add(self.vertical.scale(t))
            .sub(self.origin)
            .sub(offset);
        let r = Ray::new(orig, dir);
        proof {
            assert(r == get_ray_s(*self, s, t, d));
            if self.lens_radius == 0 {
                lemma_fmul_zero(d.x);
                lemma_fmul_zero(d.y);
                lemma_fmul_zero(d.z);
                lemma_fmul_zero(0);
                let zd = Vec3 { x: 0i64, y: 0i64, z: 0i64 };
                assert(vscale_s(d, 0) == vscale_s(zd, 0));
                assert(r == get_ray_s(*self, s, t, zd));
            }
        }
        r
    }
}

} // verus!
