//! The radiance estimator and the render driver: recursive path tracing
//! with a depth budget, per-pixel sample averaging with gamma-2 mapping,
//! and data-parallel fan-out over the columns of each row.

use vstd::prelude::*;
use rayon::iter::{IntoParallelIterator, ParallelIterator};
use crate::camera::{get_ray_s, Camera};
use crate::fx::{
    fadd, fadd_s, fclamp, fclamp_s, fdiv, fdiv_s, fmul_s, fsqrt, fsqrt_s, fsub_s, fx_from_int,
    fx_int_s, FX_ONE,
};
use crate::material::scatter_s;
use crate::ray::Ray;
use crate::rng::{in_disk_s, in_sphere_s, Rng};
use crate::vec3::{unit_s, vadd_s, vhadamard_s, vscale_s, Vec3};
use crate::world::{hit_upto_s, world_wf, World};

verus! {

/// The lower intersection bound for bounce rays: about a thousandth of a
/// unit, which excludes immediate self-intersection at the previous hit.
pub const T_MIN_EPS: i64 = 66;

pub open spec fn black_s() -> Vec3 {
    Vec3 { x: 0, y: 0, z: 0 }
}

/// The background gradient: a blend from white to the sky color by the
/// vertical component of the normalized ray direction, mapped from
/// `[-1, 1]` to a blend factor in `[0, 1]`.
pub open spec fn background_s(r: Ray) -> Vec3 {
    let ud = unit_s(r.dir);
    let t = fmul_s(32768, fadd_s(ud.y, FX_ONE));
    vadd_s(
        vscale_s(Vec3 { x: FX_ONE, y: FX_ONE, z: FX_ONE }, fsub_s(FX_ONE, t)),
        vscale_s(Vec3 { x: 39322, y: 49152, z: 39322 }, t),
    )
}

pub fn background(r: &Ray) -> (c: Vec3)
    ensures
        c == background_s(*r),
{
    let ud = r.dir.normalized();
    let t = crate::fx::fmul(32768, fadd(ud.y, FX_ONE));
    let white = Vec3::new(FX_ONE, FX_ONE, FX_ONE);
    let sky = Vec3::new(39322, 49152, 39322);
    white.scale(crate::fx::fsub(FX_ONE, t)).add(sky.scale(t))
}

/// One admissible sequence of scatter draws along a path. Each entry
/// holds the unit-sphere draw and the reflectance draw consumed at one
/// bounce, and the deeper estimate they lead to. `path_ok` says `c` is the
/// estimate that path produces: exactly black once the bounce budget is
/// spent; the background gradient on a miss; on a hit, the drawn scatter's
/// attenuation applied to the deeper estimate, or black on absorption.
pub open spec fn path_ok(
    world: World,
    r: Ray,
    depth: u64,
    c: Vec3,
    draws: Seq<(Vec3, i64, Vec3)>,
) -> bool
    decreases depth,
{
    if depth == 0 {
        c == black_s()
    } else {
        match hit_upto_s(
            world.primitives@,
            world.primitives@.len() as int,
            r,
            T_MIN_EPS,
            i64::MAX,
        ) {
            None => c == background_s(r),
            Some(rec) => {
                &&& draws.len() > 0
                &&& in_sphere_s(draws[0].0)
                &&& 0 <= draws[0].1 < FX_ONE
                &&& match scatter_s(
                    world.materials@[rec.mat as int],
                    r,
                    rec,
                    draws[0].0,
                    draws[0].1,
                ) {
                    None => c == black_s(),
                    Some(pair) => {
                        &&& c == vhadamard_s(pair.0, draws[0].2)
                        &&& path_ok(
                            world,
                            pair.1,
                            (depth - 1) as u64,
                            draws[0].2,
                            draws.drop_first(),
                        )
                    },
                }
            },
        }
    }
}

/// What one radiance estimate may be, for every outcome of the draws: some
/// admissible draw sequence produces it.
pub open spec fn radiance_ok(world: World, r: Ray, depth: u64, c: Vec3) -> bool {
    exists|draws: Seq<(Vec3, i64, Vec3)>| #[trigger] path_ok(world, r, depth, c, draws)
}

/// The Monte Carlo radiance of one path: at depth zero the bounce budget is
/// exhausted and the result is exactly black; a hit either scatters, in
/// which case the attenuation is applied to the recursive radiance, or
/// absorbs to black; a miss falls through to the background gradient.
#[verifier::rlimit(100)]
pub fn ray_color(r: &Ray, world: &World, depth: u64, rng: &mut Rng) -> (c: Vec3)
    requires
        world_wf(*world),
    ensures
        radiance_ok(*world, *r, depth, c),
        depth == 0 ==> c == black_s(),
        depth > 0 ==> (hit_upto_s(
            world.primitives@,
            world.primitives@.len() as int,
            *r,
            T_MIN_EPS,
            i64::MAX,
        ) is None ==> c == background_s(*r)),
    decreases depth,
{
    if depth == 0 {
        let out = Vec3::new(0, 0, 0);
        proof {
            let e: Seq<(Vec3, i64, Vec3)> = Seq::empty();
            assert(path_ok(*world, *r, depth, out, e));
        }
        return out;
    }
    match world.hit(r, T_MIN_EPS, i64::MAX) {
        Some(rec) => {
            let m = world.material_at(rec.mat);
            let sres = m.scatter(r, &rec, rng);
            match sres {
                Some(pair) => {
                    let bounced = ray_color(&pair.1, world, depth - 1, rng);
                    let out = pair.0.hadamard(bounced);
                    proof {
                        let (rv, ru) = choose|rv: Vec3, ru: i64|
                            in_sphere_s(rv) && 0 <= ru < FX_ONE && sres == scatter_s(
                                m,
                                *r,
                                rec,
                                rv,
                                ru,
                            );
                        let ds = choose|ds: Seq<(Vec3, i64, Vec3)>|
                            #[trigger] path_ok(*world, pair.1, (depth - 1) as u64, bounced, ds);
                        let draws = seq![(rv, ru, bounced)] + ds;
                        assert(draws[0] == (rv, ru, bounced));
                        assert(draws.drop_first() =~= ds);
                        assert(path_ok(*world, *r, depth, out, draws));
                    }
                    out
                },
                None => {
                    let out = Vec3::new(0, 0, 0);
                    proof {
                        let (rv, ru) = choose|rv: Vec3, ru: i64|
                            in_sphere_s(rv) && 0 <= ru < FX_ONE && sres == scatter_s(
                                m,
                                *r,
                                rec,
                                rv,
                                ru,
                            );
                        let draws = seq![(rv, ru, Vec3 { x: 0i64, y: 0i64, z: 0i64 })];
                        assert(draws[0] == (rv, ru, Vec3 { x: 0i64, y: 0i64, z: 0i64 }));
                        assert(path_ok(*world, *r, depth, out, draws));
                    }
                    out
                },
            }
        },
        None => {
            let out = background(r);
            proof {
                let e: Seq<(Vec3, i64, Vec3)> = Seq::empty();
                assert(path_ok(*world, *r, depth, out, e));
            }
            out
        },
    }
}

/// The render configuration: output size, sampling effort, bounce budget,
/// and the seed every per-pixel stream is derived from.
#[derive(Clone, Copy, PartialEq, Eq, Structural, Debug)]
pub struct RenderSettings {
    pub image_width: u64,
    pub image_height: u64,
    pub samples_per_pixel: u64,
    pub max_depth: u64,
    pub seed: u64,
}

/// Machine bounds on a renderable configuration.
pub open spec fn settings_wf(st: RenderSettings) -> bool {
    &&& 2 <= st.image_width <= 1_000_000
    &&& 2 <= st.image_height <= 1_000_000
    &&& 1 <= st.samples_per_pixel <= 1_000_000
}

/// The derived image height: width over aspect ratio, truncated.
pub fn image_height(width: u64, aspect_ratio: i64) -> (h: u64)
    requires
        aspect_ratio > 0,
        width <= 1_000_000,
    ensures
        h as int == ((width as int) * (FX_ONE as int)) / (aspect_ratio as int),
{
    let n: u128 = (width as u128) * (FX_ONE as u128);
    let q: u128 = n / (aspect_ratio as u128);
    proof {
        vstd::arithmetic::div_mod::lemma_div_nonincreasing(n as int, aspect_ratio as int);
        vstd::arithmetic::mul::lemma_mul_upper_bound(
            width as int,
            1_000_000,
            FX_ONE as int,
            FX_ONE as int,
        );
        assert(n as int <= 65536000000);
        assert(q as int <= 65536000000);
        assert(q as int == (n as int) / (aspect_ratio as int));
    }
    q as u64
}

/// One 8-bit output channel: the sample sum averaged, gamma-2 corrected by
/// a square root, clamped to the unit interval and quantized to `[0, 255]`.
pub open spec fn channel8_s(c: i64, samples: u64) -> u8 {
    let avg = fdiv_s(c, fx_int_s(samples as i64));
    let g = fclamp_s(fsqrt_s(fclamp_s(avg, 0, FX_ONE)), 0, FX_ONE);
    (((g as int) * 255) / (FX_ONE as int)) as u8
}

pub fn channel8(c: i64, samples: u64) -> (r: u8)
    requires
        1 <= samples <= 1_000_000,
    ensures
        r == channel8_s(c, samples),
{
    let denom = fx_from_int(samples as i64);
    assert(denom >= FX_ONE);
    let avg = fdiv(c, denom);
    let g = fclamp(fsqrt(fclamp(avg, 0, FX_ONE)), 0, FX_ONE);
    proof {
        vstd::arithmetic::div_mod::lemma_div_is_ordered(
            (g as int) * 255,
            (FX_ONE as int) * 255,
            FX_ONE as int,
        );
        vstd::arithmetic::mul::lemma_mul_inequality(g as int, FX_ONE as int, 255);
        vstd::arithmetic::div_mod::lemma_div_pos_is_pos((g as int) * 255, FX_ONE as int);
        vstd::arithmetic::mul::lemma_mul_nonnegative(g as int, 255);
        assert(((FX_ONE as int) * 255) / (FX_ONE as int) == 255) by {
            vstd::arithmetic::div_mod::lemma_div_multiples_vanish(255, FX_ONE as int);
        }
    }
    (((g as u64) * 255) / (FX_ONE as u64)) as u8
}

/// The quantized pixel for a sample-color sum.
pub fn to_rgb8(sum: Vec3, samples: u64) -> (px: (u8, u8, u8))
    requires
        1 <= samples <= 1_000_000,
    ensures
        px.0 == channel8_s(sum.x, samples),
        px.1 == channel8_s(sum.y, samples),
        px.2 == channel8_s(sum.z, samples),
{
    (channel8(sum.x, samples), channel8(sum.y, samples), channel8(sum.z, samples))
}

/// The per-task stream seed, a function of the base seed and the pixel
/// coordinates alone, so parallel tasks are independent and a fixed base
/// seed reproduces the image.
pub open spec fn mix_seed_s(seed: u64, i: u64, j: u64) -> u64 {
    ((seed as int + (i as int) * 0x9e37_79b9_7f4a_7c15 + (j as int) * 0x517c_c1b7_2722_0a95)
        % 0x1_0000_0000_0000_0000) as u64
}

pub fn mix_seed(seed: u64, i: u64, j: u64) -> (r: u64)
    requires
        i < 0x1_0000_0000,
        j < 0x1_0000_0000,
    ensures
        r == mix_seed_s(seed, i, j),
{
    let acc: u128 = (seed as u128) + (i as u128) * 0x9e37_79b9_7f4a_7c15 + (j as u128)
        * 0x517c_c1b7_2722_0a95;
    (acc % 0x1_0000_0000_0000_0000) as u64
}

/// The normalized horizontal screen coordinate of column `i` under
/// jitter `du`.
pub open spec fn screen_u(st: RenderSettings, i: u64, du: i64) -> i64 {
    fdiv_s(fadd_s(fx_int_s(i as i64), du), fx_int_s((st.image_width - 1) as i64))
}

/// The normalized vertical screen coordinate of scanline `j` under
/// jitter `dv`.
pub open spec fn screen_v(st: RenderSettings, j: u64, dv: i64) -> i64 {
    fdiv_s(fadd_s(fx_int_s(j as i64), dv), fx_int_s((st.image_height - 1) as i64))
}

/// One Monte Carlo sample for pixel `(i, j)`: an admissible radiance of a
/// camera ray through admissible jitter and lens draws.
pub open spec fn one_sample_ok(
    world: World,
    cam: Camera,
    st: RenderSettings,
    i: u64,
    j: u64,
    c: Vec3,
) -> bool {
    exists|du: i64, dv: i64, d: Vec3|
        0 <= du < FX_ONE && 0 <= dv < FX_ONE && in_disk_s(d) && #[trigger] radiance_ok(
            world,
            get_ray_s(cam, screen_u(st, i, du), screen_v(st, j, dv), d),
            st.max_depth,
            c,
        )
}

/// The fixed-point sum of a sequence of sample colors.
pub open spec fn color_sum_s(colors: Seq<Vec3>) -> Vec3
    decreases colors.len(),
{
    if colors.len() == 0 {
        black_s()
    } else {
        vadd_s(color_sum_s(colors.drop_last()), colors.last())
    }
}

/// Every entry is an admissible sample for pixel `(i, j)`.
pub open spec fn samples_ok(
    world: World,
    cam: Camera,
    st: RenderSettings,
    i: u64,
    j: u64,
    colors: Seq<Vec3>,
) -> bool {
    forall|k: int|
        0 <= k < colors.len() ==> one_sample_ok(world, cam, st, i, j, #[trigger] colors[k])
}

/// What a rendered pixel may be, for every outcome of the draws: the
/// gamma quantization of the averaged sum of `samples_per_pixel`
/// admissible sample radiances.
pub open spec fn pixel_ok(
    world: World,
    cam: Camera,
    st: RenderSettings,
    i: u64,
    j: u64,
    px: (u8, u8, u8),
) -> bool {
    exists|colors: Seq<Vec3>|
        #![trigger samples_ok(world, cam, st, i, j, colors)]
        colors.len() == st.samples_per_pixel && samples_ok(world, cam, st, i, j, colors)
            && px.0 == channel8_s(color_sum_s(colors).x, st.samples_per_pixel) && px.1
            == channel8_s(color_sum_s(colors).y, st.samples_per_pixel) && px.2 == channel8_s(
            color_sum_s(colors).z,
            st.samples_per_pixel,
        )
}

/// One pixel: average `samples_per_pixel` jittered rays through the camera
/// against the world, then quantize. The task's random stream is seeded
/// from the pixel coordinates, so the result is a function of its arguments
/// and safe to compute on any worker.
#[verifier::rlimit(100)]
pub fn render_pixel(world: &World, cam: &Camera, st: &RenderSettings, i: u64, j: u64) -> (px: (
    u8,
    u8,
    u8,
))
    requires
        world_wf(*world),
        settings_wf(*st),
        i < st.image_width,
        j < st.image_height,
    ensures
        pixel_ok(*world, *cam, *st, i, j, px),
{
    let mut rng = Rng::from_seed(mix_seed(st.seed, i, j));
    let mut sum = Vec3::new(0, 0, 0);
    let mut s: u64 = 0;
    let ghost mut colors: Seq<Vec3> = Seq::empty();
    let wdenom = fx_from_int((st.image_width - 1) as i64);
    let hdenom = fx_from_int((st.image_height - 1) as i64);
    assert(wdenom >= FX_ONE);
    assert(hdenom >= FX_ONE);
    while s < st.samples_per_pixel
        invariant
            world_wf(*world),
            settings_wf(*st),
            i < st.image_width,
            j < st.image_height,
            wdenom == fx_int_s((st.image_width - 1) as i64),
            hdenom == fx_int_s((st.image_height - 1) as i64),
            wdenom >= FX_ONE,
            hdenom >= FX_ONE,
            s <= st.samples_per_pixel,
            colors.len() == s,
            samples_ok(*world, *cam, *st, i, j, colors),
            sum == color_sum_s(colors),
        decreases st.samples_per_pixel - s,
    {
        let du = rng.unit_interval();
        let dv = rng.unit_interval();
        let su = fdiv(fadd(fx_from_int(i as i64), du), wdenom);
        let sv = fdiv(fadd(fx_from_int(j as i64), dv), hdenom);
        let r = cam.get_ray(su, sv, &mut rng);
        let c = ray_color(&r, world, st.max_depth, &mut rng);
        sum = sum.add(c);
        proof {
            let d = choose|d: Vec3| in_disk_s(d) && r == get_ray_s(*cam, su, sv, d);
            assert(su == screen_u(*st, i, du));
            assert(sv == screen_v(*st, j, dv));
            assert(radiance_ok(
                *world,
                get_ray_s(*cam, screen_u(*st, i, du), screen_v(*st, j, dv), d),
                st.max_depth,
                c,
            ));
            assert(one_sample_ok(*world, *cam, *st, i, j, c));
            let prev = colors;
            colors = colors.push(c);
            assert(colors.drop_last() =~= prev);
            assert(colors.last() == c);
            assert(sum == color_sum_s(colors));
            assert forall|k: int| 0 <= k < colors.len() implies one_sample_ok(
                *world,
                *cam,
                *st,
                i,
                j,
                #[trigger] colors[k],
            ) by {
                if k < prev.len() {
                    assert(colors[k] == prev[k]);
                }
            }
        }
        s = s + 1;
    }
    let px = to_rgb8(sum, st.samples_per_pixel);
    proof {
        assert(colors.len() == st.samples_per_pixel && samples_ok(*world, *cam, *st, i, j, colors)
            && px.0 == channel8_s(color_sum_s(colors).x, st.samples_per_pixel) && px.1
            == channel8_s(color_sum_s(colors).y, st.samples_per_pixel) && px.2 == channel8_s(
            color_sum_s(colors).z,
            st.samples_per_pixel,
        ));
    }
    px
}

/// Relies on rayon's `IndexedParallelIterator` `map`/`collect` over a
/// `usize` range: the collected vector has one entry per column index, in
/// ascending column order, each entry computed by this library's
/// `render_pixel` — so each entry meets `render_pixel`'s own contract. The
/// world and camera are only read, so the parallel tasks share them freely.
#[verifier::external_body]
fn par_render_row(world: &World, cam: &Camera, st: &RenderSettings, j: u64) -> (row: Vec<
    (u8, u8, u8),
>)
    requires
        world_wf(*world),
        settings_wf(*st),
        j < st.image_height,
    ensures
        row@.len() == st.image_width,
        forall|k: int|
            0 <= k < row@.len() ==> pixel_ok(*world, *cam, *st, k as u64, j, #[trigger] row@[k]),
{
    (0..st.image_width as usize)
        .into_par_iter()
        .map(|i| render_pixel(world, cam, st, i as u64, j))
        .collect()
}

/// One scanline, columns rendered in parallel, returned in column order,
/// each pixel admissible for its coordinates.
pub fn render_row(world: &World, cam: &Camera, st: &RenderSettings, j: u64) -> (row: Vec<
    (u8, u8, u8),
>)
    requires
        world_wf(*world),
        settings_wf(*st),
        j < st.image_height,
    ensures
        row@.len() == st.image_width,
        forall|k: int|
            0 <= k < row@.len() ==> pixel_ok(*world, *cam, *st, k as u64, j, #[trigger] row@[k]),
{
    par_render_row(world, cam, st, j)
}

/// Admissibility of one entry of the assembled image: the entry for image
/// row `jj` (counting from the top) and column `k` is an admissible pixel
/// for scanline `image_height - 1 - jj`.
pub open spec fn image_pixel_ok(
    world: World,
    cam: Camera,
    st: RenderSettings,
    img: Seq<(u8, u8, u8)>,
    jj: int,
    k: int,
) -> bool {
    pixel_ok(
        world,
        cam,
        st,
        k as u64,
        (st.image_height - 1 - jj) as u64,
        img[jj * (st.image_width as int) + k],
    )
}

/// The whole image, row-major with the top row (largest j) first, one
/// quantized pixel per entry, each admissible for its coordinates.
pub fn render_image(world: &World, cam: &Camera, st: &RenderSettings) -> (img: Vec<(u8, u8, u8)>)
    requires
        world_wf(*world),
        settings_wf(*st),
    ensures
        img@.len() == st.image_height * st.image_width,
        forall|jj: int, k: int|
            0 <= jj < st.image_height && 0 <= k < st.image_width ==> #[trigger] image_pixel_ok(
                *world,
                *cam,
                *st,
                img@,
                jj,
                k,
            ),
{
    let mut img: Vec<(u8, u8, u8)> = Vec::new();
    let mut done: u64 = 0;
    while done < st.image_height
        invariant
            world_wf(*world),
            settings_wf(*st),
            done <= st.image_height,
            img@.len() == done * st.image_width,
            forall|jj: int, k: int|
                0 <= jj < done && 0 <= k < st.image_width ==> #[trigger] image_pixel_ok(
                    *world,
                    *cam,
                    *st,
                    img@,
                    jj,
                    k,
                ),
        decreases st.image_height - done,
    {
        let j = st.image_height - 1 - done;
        let row = render_row(world, cam, st, j);
        let ghost prev_img = img@;
        let mut k: usize = 0;
        while k < row.len()
            invariant
                k <= row@.len(),
                row@.len() == st.image_width,
                img@ == prev_img + row@.subrange(0, k as int),
            decreases row@.len() - k,
        {
            img.push(row[k]);
            proof {
                assert(img@ =~= prev_img + row@.subrange(0, k + 1));
            }
            k = k + 1;
        }
        proof {
            assert(row@.subrange(0, row@.len() as int) =~= row@);
            assert(img@ == prev_img + row@);
            vstd::arithmetic::mul::lemma_mul_is_distributive_add_other_way(
                st.image_width as int,
                done as int,
                1,
            );
            assert forall|jj: int, kk: int|
                0 <= jj < done + 1 && 0 <= kk < st.image_width implies #[trigger] image_pixel_ok(
                *world,
                *cam,
                *st,
                img@,
                jj,
                kk,
            ) by {
                let w = st.image_width as int;
                if jj < done {
                    assert(jj * w + kk < done * w) by (nonlinear_arith)
                        requires
                            0 <= kk < w,
                            jj < done,
                            0 <= jj,
                            w > 0;
                    assert(jj * w + kk >= 0) by (nonlinear_arith)
                        requires
                            0 <= jj,
                            0 <= kk,
                            w > 0;
                    assert(img@[jj * w + kk] == prev_img[jj * w + kk]);
                    assert(image_pixel_ok(*world, *cam, *st, prev_img, jj, kk));
                } else {
                    assert(jj == done);
                    assert(jj * w + kk == prev_img.len() + kk);
                    assert(img@[jj * w + kk] == row@[kk]);
                    assert(pixel_ok(*world, *cam, *st, kk as u64, j, row@[kk]));
                    assert(j == st.image_height - 1 - jj);
                }
            }
        }
        done = done + 1;
    }
    img
}

} // verus!
