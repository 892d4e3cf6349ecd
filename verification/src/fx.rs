//! Saturating fixed-point scalar arithmetic.
//!
//! A fixed-point value `v: i64` stands for the real number `v / FX_ONE`.
//! Every operation clamps its mathematical result into `[-FX_BIG, FX_BIG]`,
//! so no operation can overflow or panic; products and quotients truncate
//! toward zero, as the spec functions here state exactly.

use vstd::prelude::*;
use vstd::arithmetic::mul::{lemma_mul_upper_bound, lemma_mul_strict_upper_bound};

verus! {

/// The fixed-point scale: `FX_ONE` stands for the real number one.
pub const FX_ONE: i64 = 65536;

/// Saturation bound (2^60): every arithmetic result is clamped into
/// `[-FX_BIG, FX_BIG]`, which keeps all values far from the `i64` limits.
pub const FX_BIG: i64 = 0x1000_0000_0000_0000;

/// Absolute value of a mathematical integer.
pub open spec fn iabs(x: int) -> int {
    if x >= 0 {
        x
    } else {
        -x
    }
}

/// Integer division truncated toward zero, the rounding that the executable
/// sign-magnitude computations below perform.
pub open spec fn tdiv(a: int, b: int) -> int
    recommends
        b != 0,
{
    if (a >= 0) == (b > 0) {
        iabs(a) / iabs(b)
    } else {
        -(iabs(a) / iabs(b))
    }
}

/// Clamp a mathematical integer into the representable fixed-point range.
pub open spec fn sat64(x: int) -> i64 {
    if x > FX_BIG as int {
        FX_BIG
    } else if x < -(FX_BIG as int) {
        (-(FX_BIG as int)) as i64
    } else {
        x as i64
    }
}

pub open spec fn fadd_s(a: i64, b: i64) -> i64 {
    sat64(a as int + b as int)
}

pub open spec fn fsub_s(a: i64, b: i64) -> i64 {
    sat64(a as int - b as int)
}

pub open spec fn fneg_s(a: i64) -> i64 {
    sat64(-(a as int))
}

pub open spec fn fmul_s(a: i64, b: i64) -> i64 {
    sat64(tdiv(a as int * b as int, FX_ONE as int))
}

pub open spec fn fdiv_s(a: i64, b: i64) -> i64
    recommends
        b != 0,
{
    sat64(tdiv(a as int * FX_ONE as int, b as int))
}

/// `r` is the integer square root (floor) of `n`.
pub open spec fn is_sqrt(n: int, r: int) -> bool {
    0 <= r && r * r <= n && n < (r + 1) * (r + 1)
}

/// The integer square root of a nonnegative integer.
pub open spec fn sqrt_floor(n: int) -> int
    recommends
        n >= 0,
{
    choose|r: int| is_sqrt(n, r)
}

/// Square root of a nonnegative fixed-point value, in fixed point:
/// `sqrt(x / S) == sqrt(x * S) / S` for the scale `S`.
pub open spec fn fsqrt_s(x: i64) -> i64
    recommends
        x >= 0,
{
    sqrt_floor(x as int * FX_ONE as int) as i64
}

/// Magnitude of an `i64`, exact even for `i64::MIN`.
fn mag(x: i64) -> (r: u128)
    ensures
        r as int == iabs(x as int),
        r <= 0x8000_0000_0000_0000u128,
{
    if x >= 0 {
        x as u128
    } else {
        (-(x as i128)) as u128
    }
}

/// Reassemble a sign and a magnitude into a clamped fixed-point value.
fn from_mag(neg: bool, m: u128) -> (r: i64)
    ensures
        r == sat64(if neg { -(m as int) } else { m as int }),
{
    if m > FX_BIG as u128 {
        if neg {
            -FX_BIG
        } else {
            FX_BIG
        }
    } else {
        if neg {
            -(m as i64)
        } else {
            m as i64
        }
    }
}

pub proof fn lemma_abs_mul(a: int, b: int)
    ensures
        iabs(a * b) == iabs(a) * iabs(b),
        a * b != 0 ==> ((a * b >= 0) <==> ((a >= 0) <==> (b >= 0))),
{
    assert(iabs(a * b) == iabs(a) * iabs(b)) by (nonlinear_arith);
    assert(a * b != 0 ==> ((a * b >= 0) <==> ((a >= 0) <==> (b >= 0)))) by (nonlinear_arith);
}

/// Truncated division of a product, written over the factors' magnitudes.
proof fn lemma_tdiv_mag(a: int, b: int, d: int)
    requires
        d > 0,
    ensures
        tdiv(a * b, d) == if (a < 0) != (b < 0) {
            -((iabs(a) * iabs(b)) / d)
        } else {
            (iabs(a) * iabs(b)) / d
        },
{
    lemma_abs_mul(a, b);
    if a * b == 0 {
        assert(iabs(a) * iabs(b) == 0);
        vstd::arithmetic::div_mod::lemma_div_of0(d);
    }
}

pub fn fadd(a: i64, b: i64) -> (r: i64)
    ensures
        r == fadd_s(a, b),
{
    let s: i128 = a as i128 + b as i128;
    if s > FX_BIG as i128 {
        FX_BIG
    } else if s < -(FX_BIG as i128) {
        -FX_BIG
    } else {
        s as i64
    }
}

pub fn fsub(a: i64, b: i64) -> (r: i64)
    ensures
        r == fsub_s(a, b),
{
    let s: i128 = a as i128 - b as i128;
    if s > FX_BIG as i128 {
        FX_BIG
    } else if s < -(FX_BIG as i128) {
        -FX_BIG
    } else {
        s as i64
    }
}

pub fn fneg(a: i64) -> (r: i64)
    ensures
        r == fneg_s(a),
{
    let s: i128 = -(a as i128);
    if s > FX_BIG as i128 {
        FX_BIG
    } else if s < -(FX_BIG as i128) {
        -FX_BIG
    } else {
        s as i64
    }
}

pub fn fmul(a: i64, b: i64) -> (r: i64)
    ensures
        r == fmul_s(a, b),
{
    let neg: bool = (a < 0) != (b < 0);
    let ma: u128 = mag(a);
    let mb: u128 = mag(b);
    proof {
        lemma_mul_upper_bound(
            ma as int,
            0x8000_0000_0000_0000,
            mb as int,
            0x8000_0000_0000_0000,
        );
        lemma_tdiv_mag(a as int, b as int, FX_ONE as int);
    }
    let m: u128 = (ma * mb) / (FX_ONE as u128);
    from_mag(neg, m)
}

pub fn fdiv(a: i64, b: i64) -> (r: i64)
    requires
        b != 0,
    ensures
        r == fdiv_s(a, b),
{
    let neg: bool = (a < 0) != (b < 0);
    let ma: u128 = mag(a);
    let mb: u128 = mag(b);
    proof {
        lemma_mul_upper_bound(ma as int, 0x8000_0000_0000_0000, FX_ONE as int, FX_ONE as int);
        lemma_abs_mul(a as int, FX_ONE as int);
    }
    let m: u128 = (ma * (FX_ONE as u128)) / mb;
    proof {
        let p: int = a as int * FX_ONE as int;
        assert(iabs(p) == iabs(a as int) * FX_ONE);
        assert(p != 0 ==> ((p >= 0) <==> (a >= 0)));
        assert(m as int == iabs(p) / iabs(b as int));
        assert(tdiv(p, b as int) == if neg { -(m as int) } else { m as int });
    }
    from_mag(neg, m)
}

/// Integer square root by binary search.
pub fn isqrt(n: u128) -> (r: u128)
    ensures
        is_sqrt(n as int, r as int),
{
    if n == 0 {
        return 0;
    }
    let mut lo: u128 = 0;
    let mut hi: u128 = 0x1_0000_0000_0000_0000;
    proof {
        assert((0x1_0000_0000_0000_0000 as int) * (0x1_0000_0000_0000_0000 as int) > n as int)
            by (nonlinear_arith);
    }
    while hi - lo > 1
        invariant
            lo < hi <= 0x1_0000_0000_0000_0000u128,
            (lo as int) * (lo as int) <= n as int,
            (n as int) < (hi as int) * (hi as int),
        decreases hi - lo,
    {
        let mid: u128 = lo + (hi - lo) / 2;
        proof {
            lemma_mul_strict_upper_bound(
                mid as int,
                0x1_0000_0000_0000_0000,
                mid as int,
                0x1_0000_0000_0000_0000,
            );
        }
        if mid * mid <= n {
            lo = mid;
        } else {
            hi = mid;
        }
    }
    lo
}

/// The integer square root is unique, so the searched root is `sqrt_floor`.
pub proof fn lemma_sqrt_unique(n: int, r: int)
    requires
        is_sqrt(n, r),
    ensures
        sqrt_floor(n) == r,
{
    assert(is_sqrt(n, sqrt_floor(n))) by {
        assert(exists|q: int| is_sqrt(n, q));
    }
    let q = sqrt_floor(n);
    if q < r {
        assert((q + 1) * (q + 1) <= r * r) by (nonlinear_arith)
            requires 0 <= q + 1 <= r;
        assert(false);
    }
    if r < q {
        assert((r + 1) * (r + 1) <= q * q) by (nonlinear_arith)
            requires 0 <= r + 1 <= q;
        assert(false);
    }
}

/// Fixed-point square root of a nonnegative value.
pub fn fsqrt(x: i64) -> (r: i64)
    requires
        x >= 0,
    ensures
        r == fsqrt_s(x),
        r >= 0,
        is_sqrt(x as int * FX_ONE as int, r as int),
{
    let m: u128 = (x as u128) * (FX_ONE as u128);
    proof {
        lemma_mul_upper_bound(x as int, 0x7fff_ffff_ffff_ffff, FX_ONE as int, FX_ONE as int);
    }
    let s: u128 = isqrt(m);
    proof {
        lemma_sqrt_unique(m as int, s as int);
        assert(m as int <= 0x7fff_ffff_ffff_ffff * 0x10000);
        if s as int >= 0x100_0000_0000 {
            assert((s as int) * (s as int) >= 0x100_0000_0000 * 0x100_0000_0000)
                by (nonlinear_arith)
                requires
                    (s as int) >= 0x100_0000_0000;
            assert(false);
        }
    }
    s as i64
}

pub open spec fn fmin_s(a: i64, b: i64) -> i64 {
    if a <= b {
        a
    } else {
        b
    }
}

pub open spec fn fabs_s(a: i64) -> i64 {
    if a >= 0 {
        a
    } else {
        fneg_s(a)
    }
}

pub open spec fn fclamp_s(x: i64, lo: i64, hi: i64) -> i64 {
    if x < lo {
        lo
    } else if x > hi {
        hi
    } else {
        x
    }
}

pub fn fmin(a: i64, b: i64) -> (r: i64)
    ensures
        r == fmin_s(a, b),
{
    if a <= b {
        a
    } else {
        b
    }
}

pub fn fabs(a: i64) -> (r: i64)
    ensures
        r == fabs_s(a),
        r >= 0,
{
    if a >= 0 {
        a
    } else {
        fneg(a)
    }
}

pub fn fclamp(x: i64, lo: i64, hi: i64) -> (r: i64)
    requires
        lo <= hi,
    ensures
        r == fclamp_s(x, lo, hi),
{
    if x < lo {
        lo
    } else if x > hi {
        hi
    } else {
        x
    }
}

/// Multiplying a value in range by one is the identity.
pub proof fn lemma_fmul_one(a: i64)
    requires
        -FX_BIG <= a,
        a <= FX_BIG,
    ensures
        fmul_s(a, FX_ONE) == a,
        fmul_s(FX_ONE, a) == a,
{
    lemma_abs_mul(a as int, FX_ONE as int);
    lemma_abs_mul(FX_ONE as int, a as int);
    vstd::arithmetic::div_mod::lemma_div_multiples_vanish(iabs(a as int), FX_ONE as int);
    assert(iabs(a as int) * (FX_ONE as int) == (FX_ONE as int) * iabs(a as int));
}

/// Dividing a value in range by one is the identity.
pub proof fn lemma_fdiv_one(a: i64)
    requires
        -FX_BIG <= a,
        a <= FX_BIG,
    ensures
        fdiv_s(a, FX_ONE) == a,
{
    lemma_fmul_one(a);
    assert(fdiv_s(a, FX_ONE) == fmul_s(a, FX_ONE));
}

/// Multiplying a value in range by minus one negates it.
pub proof fn lemma_fmul_neg_one(a: i64)
    requires
        -FX_BIG <= a,
        a <= FX_BIG,
    ensures
        fmul_s(a, fneg_s(FX_ONE)) == fneg_s(a),
{
    lemma_abs_mul(a as int, -(FX_ONE as int));
    vstd::arithmetic::div_mod::lemma_div_multiples_vanish(iabs(a as int), FX_ONE as int);
    assert(iabs(a as int) * (FX_ONE as int) == (FX_ONE as int) * iabs(a as int));
}

/// Multiplying by zero gives zero.
pub proof fn lemma_fmul_zero(a: i64)
    ensures
        fmul_s(a, 0) == 0,
        fmul_s(0, a) == 0,
{
    lemma_abs_mul(a as int, 0);
    lemma_abs_mul(0, a as int);
    vstd::arithmetic::div_mod::lemma_div_of0(FX_ONE as int);
}

/// Adding zero to a value in range is the identity.
pub proof fn lemma_fadd_zero(a: i64)
    requires
        -FX_BIG <= a,
        a <= FX_BIG,
    ensures
        fadd_s(a, 0) == a,
        fadd_s(0, a) == a,
{
}

/// The quotient of nonnegative by positive is nonnegative.
pub proof fn lemma_fdiv_nonneg(a: i64, b: i64)
    requires
        a >= 0,
        b > 0,
    ensures
        fdiv_s(a, b) >= 0,
{
    vstd::arithmetic::mul::lemma_mul_nonnegative(a as int, FX_ONE as int);
    vstd::arithmetic::div_mod::lemma_div_pos_is_pos(
        iabs(a as int * FX_ONE as int),
        iabs(b as int),
    );
}

/// The product of two unit-interval values stays in the unit interval.
pub proof fn lemma_fmul_unit_range(a: i64, b: i64)
    requires
        0 <= a,
        a < FX_ONE,
        0 <= b,
        b < FX_ONE,
    ensures
        0 <= fmul_s(a, b),
        fmul_s(a, b) < FX_ONE,
{
    vstd::arithmetic::mul::lemma_mul_nonnegative(a as int, b as int);
    vstd::arithmetic::mul::lemma_mul_upper_bound(a as int, 65535, b as int, 65535);
    vstd::arithmetic::div_mod::lemma_div_is_ordered(
        a as int * b as int,
        (65535 * 65535) as int,
        FX_ONE as int,
    );
    vstd::arithmetic::div_mod::lemma_div_pos_is_pos(a as int * b as int, FX_ONE as int);
    assert(((65535 * 65535) as int) / (FX_ONE as int) < FX_ONE as int);
}

pub open spec fn fx_int_s(i: i64) -> i64 {
    sat64(i as int * FX_ONE as int)
}

/// The fixed-point value standing for the integer `i`.
pub fn fx_from_int(i: i64) -> (r: i64)
    ensures
        r == fx_int_s(i),
{
    let neg: bool = i < 0;
    let m: u128 = mag(i);
    proof {
        lemma_mul_upper_bound(m as int, 0x8000_0000_0000_0000, FX_ONE as int, FX_ONE as int);
        lemma_abs_mul(i as int, FX_ONE as int);
    }
    let p: u128 = m * (FX_ONE as u128);
    from_mag(neg, p)
}

} // verus!
