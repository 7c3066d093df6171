//! Elementary functions on Q32.32 fixed-point values.
//!
//! Each function is total: out-of-range arguments are clamped or saturated,
//! and the specification states the exact computed value, including the
//! clamping. The polynomial cores are truncated power series whose
//! coefficients are rounded to Q32.

use vstd::prelude::*;
use crate::fixed::{
    Q, iabs, sat64, qclamp_s, qneg_s, qadd_s, qsub_s, qmul_s, qdiv_s,
    qclamp, qneg, qadd, qsub, qmul, qdiv,
};

verus! {

/// Truncated exponential series, coefficients 1/k! in Q32.
#[verifier::opaque]
pub open spec fn exp_poly_s(x: int) -> int {
    qadd_s(4294967296, qmul_s(x, qadd_s(4294967296, qmul_s(x, qadd_s(2147483648, qmul_s(x, qadd_s(715827883, qmul_s(x, qadd_s(178956971, qmul_s(x, qadd_s(35791394, qmul_s(x, qadd_s(5965232, qmul_s(x, qadd_s(852176, qmul_s(x, qadd_s(106522, qmul_s(x, qadd_s(11836, qmul_s(x, qadd_s(1184, qmul_s(x, qadd_s(108, qmul_s(x, 9))))))))))))))))))))))))
}

fn exp_poly(x: i64) -> (r: i64)
    ensures r == exp_poly_s(x as int),
{
    proof { reveal(exp_poly_s); }
    let mut acc: i64 = 9;
    acc = qadd(108, qmul(x, acc));
    acc = qadd(1184, qmul(x, acc));
    acc = qadd(11836, qmul(x, acc));
    acc = qadd(106522, qmul(x, acc));
    acc = qadd(852176, qmul(x, acc));
    acc = qadd(5965232, qmul(x, acc));
    acc = qadd(35791394, qmul(x, acc));
    acc = qadd(178956971, qmul(x, acc));
    acc = qadd(715827883, qmul(x, acc));
    acc = qadd(2147483648, qmul(x, acc));
    acc = qadd(4294967296, qmul(x, acc));
    acc = qadd(4294967296, qmul(x, acc));
    acc
}

/// Truncated sine series in the squared argument, coefficients 1/(2k+1)! in Q32.
#[verifier::opaque]
pub open spec fn sin_poly_s(w: int) -> int {
    qsub_s(4294967296, qmul_s(w, qsub_s(715827883, qmul_s(w, qsub_s(35791394, qmul_s(w, qsub_s(852176, qmul_s(w, qsub_s(11836, qmul_s(w, qsub_s(108, qmul_s(w, 1))))))))))))
}

fn sin_poly(w: i64) -> (r: i64)
    ensures r == sin_poly_s(w as int),
{
    proof { reveal(sin_poly_s); }
    let mut acc: i64 = 1;
    acc = qsub(108, qmul(w, acc));
    acc = qsub(11836, qmul(w, acc));
    acc = qsub(852176, qmul(w, acc));
    acc = qsub(35791394, qmul(w, acc));
    acc = qsub(715827883, qmul(w, acc));
    acc = qsub(4294967296, qmul(w, acc));
    acc
}

/// Truncated cosine series in the squared argument, coefficients 1/(2k)! in Q32.
#[verifier::opaque]
pub open spec fn cos_poly_s(w: int) -> int {
    qsub_s(4294967296, qmul_s(w, qsub_s(2147483648, qmul_s(w, qsub_s(178956971, qmul_s(w, qsub_s(5965232, qmul_s(w, qsub_s(106522, qmul_s(w, qsub_s(1184, qmul_s(w, 9))))))))))))
}

fn cos_poly(w: i64) -> (r: i64)
    ensures r == cos_poly_s(w as int),
{
    proof { reveal(cos_poly_s); }
    let mut acc: i64 = 9;
    acc = qsub(1184, qmul(w, acc));
    acc = qsub(106522, qmul(w, acc));
    acc = qsub(5965232, qmul(w, acc));
    acc = qsub(178956971, qmul(w, acc));
    acc = qsub(2147483648, qmul(w, acc));
    acc = qsub(4294967296, qmul(w, acc));
    acc
}

/// Truncated inverse-hyperbolic-tangent series in the squared argument, coefficients 1/(2k+1) in Q32.
#[verifier::opaque]
pub open spec fn atanh_poly_s(w: int) -> int {
    qadd_s(4294967296, qmul_s(w, qadd_s(1431655765, qmul_s(w, qadd_s(858993459, qmul_s(w, qadd_s(613566757, qmul_s(w, qadd_s(477218588, qmul_s(w, qadd_s(390451572, qmul_s(w, qadd_s(330382100, qmul_s(w, qadd_s(286331153, qmul_s(w, qadd_s(252645135, qmul_s(w, qadd_s(226050910, qmul_s(w, 204522252))))))))))))))))))))
}

fn atanh_poly(w: i64) -> (r: i64)
    ensures r == atanh_poly_s(w as int),
{
    proof { reveal(atanh_poly_s); }
    let mut acc: i64 = 204522252;
    acc = qadd(226050910, qmul(w, acc));
    acc = qadd(252645135, qmul(w, acc));
    acc = qadd(286331153, qmul(w, acc));
    acc = qadd(330382100, qmul(w, acc));
    acc = qadd(390451572, qmul(w, acc));
    acc = qadd(477218588, qmul(w, acc));
    acc = qadd(613566757, qmul(w, acc));
    acc = qadd(858993459, qmul(w, acc));
    acc = qadd(1431655765, qmul(w, acc));
    acc = qadd(4294967296, qmul(w, acc));
    acc
}

/// Truncated arcsine series in the squared argument, coefficients (2k)!/(4^k (k!)^2 (2k+1)) in Q32.
#[verifier::opaque]
pub open spec fn asin_poly_s(w: int) -> int {
    qadd_s(4294967296, qmul_s(w, qadd_s(715827883, qmul_s(w, qadd_s(322122547, qmul_s(w, qadd_s(191739611, qmul_s(w, qadd_s(130489458, qmul_s(w, qadd_s(96087692, qmul_s(w, qadd_s(74529556, qmul_s(w, qadd_s(59978547, qmul_s(w, qadd_s(49614607, qmul_s(w, qadd_s(41925794, qmul_s(w, qadd_s(36036218, qmul_s(w, qadd_s(31407059, qmul_s(w, qadd_s(27690557, qmul_s(w, qadd_s(24653274, qmul_s(w, qadd_s(22133297, qmul_s(w, qadd_s(20015164, qmul_s(w, 18214557))))))))))))))))))))))))))))))))
}

fn asin_poly(w: i64) -> (r: i64)
    ensures r == asin_poly_s(w as int),
{
    proof { reveal(asin_poly_s); }
    let mut acc: i64 = 18214557;
    acc = qadd(20015164, qmul(w, acc));
    acc = qadd(22133297, qmul(w, acc));
    acc = qadd(24653274, qmul(w, acc));
    acc = qadd(27690557, qmul(w, acc));
    acc = qadd(31407059, qmul(w, acc));
    acc = qadd(36036218, qmul(w, acc));
    acc = qadd(41925794, qmul(w, acc));
    acc = qadd(49614607, qmul(w, acc));
    acc = qadd(59978547, qmul(w, acc));
    acc = qadd(74529556, qmul(w, acc));
    acc = qadd(96087692, qmul(w, acc));
    acc = qadd(130489458, qmul(w, acc));
    acc = qadd(191739611, qmul(w, acc));
    acc = qadd(322122547, qmul(w, acc));
    acc = qadd(715827883, qmul(w, acc));
    acc = qadd(4294967296, qmul(w, acc));
    acc
}


/// Repeated saturating doubling.
pub open spec fn dbl_iter_s(c: int, n: int) -> int
    decreases n,
{
    if n <= 0 { c } else { sat64(2 * dbl_iter_s(c, n - 1)) }
}

/// Repeated halving (floor), for non-negative values.
pub open spec fn hlv_iter_s(c: int, n: int) -> int
    decreases n,
{
    if n <= 0 { c } else { hlv_iter_s(c, n - 1) / 2 }
}

proof fn lemma_dbl_iter_nonneg(c: int, n: int)
    requires c >= 0,
    ensures dbl_iter_s(c, n) >= 0,
    decreases n,
{
    if n > 0 { lemma_dbl_iter_nonneg(c, n - 1); }
}

proof fn lemma_hlv_iter_nonneg(c: int, n: int)
    requires c >= 0,
    ensures hlv_iter_s(c, n) >= 0,
    decreases n,
{
    if n > 0 { lemma_hlv_iter_nonneg(c, n - 1); }
}

/// Exponential. The argument is clamped to [-23, 22] (in real units);
/// the result of `qexp_s(x)` stands for `exp(x / 2^32) * 2^32`, computed by
/// range reduction with base 2 and the truncated series, and is capped at
/// one for non-positive arguments.
#[verifier::opaque]
pub open spec fn qexp_s(x: int) -> int {
    let xc = qclamp_s(x, -98784247808, 94489280512);
    let y = xc + 101219512048;
    let np = (y + 1488522236) / 2977044472;
    let r0 = y - np * 2977044472;
    let c0 = exp_poly_s(r0);
    let c: int = if c0 < 0 { 0 } else { c0 };
    let n = np - 34;
    let v = if n >= 0 { dbl_iter_s(c, n) } else { hlv_iter_s(c, -n) };
    if x <= 0 && v > Q { Q as int } else { v }
}

pub fn qexp(x: i64) -> (r: i64)
    ensures
        r == qexp_s(x as int),
        0 <= r,
        x <= 0 ==> r <= Q,
{
    proof { reveal(qexp_s); }
    let xc = qclamp(x, -98784247808, 94489280512);
    let y: i64 = xc + 101219512048;
    let np: i64 = (((y + 1488522236) as u64) / 2977044472) as i64;
    let r0: i64 = y - np * 2977044472;
    let c0 = exp_poly(r0);
    let c: i64 = if c0 < 0 { 0 } else { c0 };
    let n: i64 = np - 34;
    let mut v: i64 = c;
    if n >= 0 {
        let mut i: i64 = 0;
        while i < n
            invariant
                0 <= i <= n,
                0 <= c,
                0 <= v,
                v == dbl_iter_s(c as int, i as int),
            decreases n - i,
        {
            v = if v >= 4611686018427387904 { i64::MAX } else { 2 * v };
            i = i + 1;
        }
        proof { lemma_dbl_iter_nonneg(c as int, n as int); }
    } else {
        let m: i64 = -n;
        let mut i: i64 = 0;
        while i < m
            invariant
                0 <= i <= m,
                0 <= c,
                0 <= v,
                v == hlv_iter_s(c as int, i as int),
            decreases m - i,
        {
            v = ((v as u64) / 2) as i64;
            i = i + 1;
        }
        proof { lemma_hlv_iter_nonneg(c as int, m as int); }
    }
    if x <= 0 && v > 4294967296 { 4294967296 } else { v }
}

/// A transmittance-like exponential: `qexp` capped at one, so the result
/// always lies in [0, 1] in real units.
#[verifier::opaque]
pub open spec fn qtrans_s(x: int) -> int {
    if qexp_s(x) > Q { Q as int } else { qexp_s(x) }
}

pub fn qtrans(x: i64) -> (r: i64)
    ensures
        r == qtrans_s(x as int),
        0 <= r <= Q,
{
    proof { reveal(qtrans_s); }
    let e = qexp(x);
    if e > 4294967296 { 4294967296 } else { e }
}

/// One downward normalization stage: shift the mantissa right when it is
/// at or above the threshold.
pub open spec fn ln_dn_s(p: (int, int), thresh: int, div: int, sh: int) -> (int, int) {
    if p.0 >= thresh { (p.0 / div, p.1 + sh) } else { p }
}

/// One upward normalization stage: shift the mantissa left when it is
/// below the threshold.
pub open spec fn ln_up_s(p: (int, int), thresh: int, mul: int, sh: int) -> (int, int) {
    if p.0 < thresh { (p.0 * mul, p.1 - sh) } else { p }
}

/// Binary normalization for the logarithm: brings a positive value into
/// [2^32, 2^33) by shifting, returning the mantissa and the shift count.
pub open spec fn ln_norm_s(x: int) -> (int, int) {
    let p1 = ln_dn_s((x, 0int), 562949953421312, 65536, 16);
    let p2 = ln_dn_s(p1, 2199023255552, 256, 8);
    let p3 = ln_dn_s(p2, 137438953472, 16, 4);
    let p4 = ln_dn_s(p3, 34359738368, 4, 2);
    let p5 = ln_dn_s(p4, 17179869184, 2, 1);
    let p6 = ln_dn_s(p5, 8589934592, 2, 1);
    let p7 = ln_up_s(p6, 65536, 65536, 16);
    let p8 = ln_up_s(p7, 16777216, 256, 8);
    let p9 = ln_up_s(p8, 268435456, 16, 4);
    let p10 = ln_up_s(p9, 1073741824, 4, 2);
    let p11 = ln_up_s(p10, 2147483648, 2, 1);
    ln_up_s(p11, 4294967296, 2, 1)
}

/// Natural logarithm. Non-positive arguments saturate at `i64::MIN`;
/// otherwise the value is `k * ln 2 + 2 * atanh(u)` over the normalized
/// mantissa, all in Q32.
#[verifier::opaque]
pub open spec fn qln_s(x: int) -> int {
    if x <= 0 { i64::MIN as int } else {
        let mk = ln_norm_s(x);
        let u = qdiv_s(mk.0 - Q, mk.0 + Q);
        let h = atanh_poly_s(qmul_s(u, u));
        let lnm = qmul_s(qadd_s(u, u), h);
        sat64(mk.1 * 2977044472 + lnm)
    }
}

#[verifier::rlimit(50)]
fn ln_norm(x: i64) -> (res: (u64, i64))
    requires x >= 1,
    ensures
        res.0 as int == ln_norm_s(x as int).0,
        res.1 as int == ln_norm_s(x as int).1,
{
    let ghost p0: (int, int) = (x as int, 0int);
    let mut m: u64 = x as u64;
    let mut k: i64 = 0;
    if m >= 562949953421312 { m = m / 65536; k = k + 16; }
    let ghost p1 = ln_dn_s(p0, 562949953421312, 65536, 16);
    proof { assert((m as int, k as int) == p1); }
    if m >= 2199023255552 { m = m / 256; k = k + 8; }
    let ghost p2 = ln_dn_s(p1, 2199023255552, 256, 8);
    proof { assert((m as int, k as int) == p2); }
    if m >= 137438953472 { m = m / 16; k = k + 4; }
    let ghost p3 = ln_dn_s(p2, 137438953472, 16, 4);
    proof { assert((m as int, k as int) == p3); }
    if m >= 34359738368 { m = m / 4; k = k + 2; }
    let ghost p4 = ln_dn_s(p3, 34359738368, 4, 2);
    proof { assert((m as int, k as int) == p4); }
    if m >= 17179869184 { m = m / 2; k = k + 1; }
    let ghost p5 = ln_dn_s(p4, 17179869184, 2, 1);
    proof { assert((m as int, k as int) == p5); }
    if m >= 8589934592 { m = m / 2; k = k + 1; }
    let ghost p6 = ln_dn_s(p5, 8589934592, 2, 1);
    proof { assert((m as int, k as int) == p6); }
    if m < 65536 { m = m * 65536; k = k - 16; }
    let ghost p7 = ln_up_s(p6, 65536, 65536, 16);
    proof { assert((m as int, k as int) == p7); }
    if m < 16777216 { m = m * 256; k = k - 8; }
    let ghost p8 = ln_up_s(p7, 16777216, 256, 8);
    proof { assert((m as int, k as int) == p8); }
    if m < 268435456 { m = m * 16; k = k - 4; }
    let ghost p9 = ln_up_s(p8, 268435456, 16, 4);
    proof { assert((m as int, k as int) == p9); }
    if m < 1073741824 { m = m * 4; k = k - 2; }
    let ghost p10 = ln_up_s(p9, 1073741824, 4, 2);
    proof { assert((m as int, k as int) == p10); }
    if m < 2147483648 { m = m * 2; k = k - 1; }
    let ghost p11 = ln_up_s(p10, 2147483648, 2, 1);
    proof { assert((m as int, k as int) == p11); }
    if m < 4294967296 { m = m * 2; k = k - 1; }
    proof { assert((m as int, k as int) == ln_up_s(p11, 4294967296, 2, 1)); }
    (m, k)
}

pub fn qln(x: i64) -> (r: i64)
    ensures r == qln_s(x as int),
{
    proof { reveal(qln_s); }
    if x <= 0 { return i64::MIN; }
    let (m, k) = ln_norm(x);
    let mi: i64 = m as i64;
    let u = qdiv(mi - 4294967296, mi + 4294967296);
    let h = atanh_poly(qmul(u, u));
    let lnm = qmul(qadd(u, u), h);
    let s: i128 = (k as i128) * 2977044472 + (lnm as i128);
    if s > i64::MAX as i128 { i64::MAX } else if s < i64::MIN as i128 { i64::MIN } else { s as i64 }
}

/// Binary search for the integer square root.
pub open spec fn sqrt_bs_s(v: int, lo: int, hi: int) -> int
    decreases hi - lo,
{
    if hi - lo <= 1 { lo } else {
        let mid = (lo + hi) / 2;
        if mid * mid <= v { sqrt_bs_s(v, mid, hi) } else { sqrt_bs_s(v, lo, mid) }
    }
}

/// Square root. Non-positive arguments give zero; otherwise the result is
/// the integer square root of `x * 2^32`, which is the Q32 square root of
/// the value `x` stands for.
#[verifier::opaque]
pub open spec fn qsqrt_s(x: int) -> int {
    if x <= 0 { 0 } else { sqrt_bs_s(x * Q, 0, 281474976710656) }
}

pub fn qsqrt(x: i64) -> (r: i64)
    ensures
        r == qsqrt_s(x as int),
        0 <= r,
{
    proof { reveal(qsqrt_s); }
    if x <= 0 { return 0; }
    let v: u128 = (x as u128) * 4294967296u128;
    let mut lo: u64 = 0;
    let mut hi: u64 = 281474976710656;
    while hi - lo > 1
        invariant
            0 <= lo < hi <= 281474976710656,
            x > 0,
            v == (x as int) * (Q as int),
            sqrt_bs_s(v as int, lo as int, hi as int) == sqrt_bs_s(v as int, 0, 281474976710656),
        decreases hi - lo,
    {
        let mid: u64 = (lo + hi) / 2;
        proof {
            assert((mid as int) * (mid as int) <= 0x1000000000000000000000000) by (nonlinear_arith)
                requires 0 <= mid <= 281474976710656;
        }
        let mq: u128 = (mid as u128) * (mid as u128);
        if mq <= v { lo = mid; } else { hi = mid; }
    }
    lo as i64
}

/// Range reduction for sine and cosine: the reduced argument in
/// [-pi/4, pi/4) and the quadrant index.
#[verifier::opaque]
pub open spec fn trig_red_m_s(x: int) -> int {
    let xc = qclamp_s(x, -137438953472, 137438953472);
    let y = xc + 431777206528;
    (y + 3373259426) / 6746518852
}

#[verifier::opaque]
pub open spec fn trig_red_r_s(x: int) -> int {
    let xc = qclamp_s(x, -137438953472, 137438953472);
    let y = xc + 431777206528;
    y - trig_red_m_s(x) * 6746518852
}

#[verifier::opaque]
pub open spec fn sin_core_s(r: int) -> int {
    qmul_s(r, sin_poly_s(qmul_s(r, r)))
}

#[verifier::opaque]
pub open spec fn cos_core_s(r: int) -> int {
    cos_poly_s(qmul_s(r, r))
}

/// Sine; the argument (radians in Q32) is clamped to [-32, 32].
#[verifier::opaque]
pub open spec fn qsin_s(x: int) -> int {
    let r = trig_red_r_s(x);
    let quad = trig_red_m_s(x) % 4;
    if quad == 0 { sin_core_s(r) }
    else if quad == 1 { cos_core_s(r) }
    else if quad == 2 { qneg_s(sin_core_s(r)) }
    else { qneg_s(cos_core_s(r)) }
}

/// Cosine; the argument (radians in Q32) is clamped to [-32, 32].
#[verifier::opaque]
pub open spec fn qcos_s(x: int) -> int {
    let r = trig_red_r_s(x);
    let quad = trig_red_m_s(x) % 4;
    if quad == 0 { cos_core_s(r) }
    else if quad == 1 { qneg_s(sin_core_s(r)) }
    else if quad == 2 { qneg_s(cos_core_s(r)) }
    else { sin_core_s(r) }
}

fn trig_reduce(x: i64) -> (res: (i64, u64))
    ensures
        res.0 == trig_red_r_s(x as int),
        res.1 == trig_red_m_s(x as int) % 4,
{
    proof { reveal(trig_red_m_s); reveal(trig_red_r_s); }
    let xc = qclamp(x, -137438953472, 137438953472);
    let y: i64 = xc + 431777206528;
    let kp: u64 = ((y + 3373259426) as u64) / 6746518852;
    let r: i64 = y - (kp as i64) * 6746518852;
    (r, kp % 4)
}

pub fn qsin(x: i64) -> (r: i64)
    ensures r == qsin_s(x as int),
{
    proof { reveal(qsin_s); reveal(sin_core_s); reveal(cos_core_s); }
    let (rr, quad) = trig_reduce(x);
    if quad == 0 { qmul(rr, sin_poly(qmul(rr, rr))) }
    else if quad == 1 { cos_poly(qmul(rr, rr)) }
    else if quad == 2 { qneg(qmul(rr, sin_poly(qmul(rr, rr)))) }
    else { qneg(cos_poly(qmul(rr, rr))) }
}

pub fn qcos(x: i64) -> (r: i64)
    ensures r == qcos_s(x as int),
{
    proof { reveal(qcos_s); reveal(sin_core_s); reveal(cos_core_s); }
    let (rr, quad) = trig_reduce(x);
    if quad == 0 { cos_poly(qmul(rr, rr)) }
    else if quad == 1 { qneg(qmul(rr, sin_poly(qmul(rr, rr)))) }
    else if quad == 2 { qneg(cos_poly(qmul(rr, rr))) }
    else { qmul(rr, sin_poly(qmul(rr, rr))) }
}

/// Tangent, as the quotient of sine and cosine.
#[verifier::opaque]
pub open spec fn qtan_s(x: int) -> int {
    qdiv_s(qsin_s(x), qcos_s(x))
}

pub fn qtan(x: i64) -> (r: i64)
    ensures r == qtan_s(x as int),
{
    proof { reveal(qtan_s); }
    qdiv(qsin(x), qcos(x))
}

#[verifier::opaque]
pub open spec fn asin_core_s(s: int) -> int {
    qmul_s(s, asin_poly_s(qmul_s(s, s)))
}

fn asin_core(s: i64) -> (r: i64)
    ensures r == asin_core_s(s as int),
{
    proof { reveal(asin_core_s); }
    qmul(s, asin_poly(qmul(s, s)))
}

/// Arcsine; the argument is clamped to [-1, 1]. For magnitudes above one
/// half the identity `asin(x) = pi/2 - 2 asin(sqrt((1 - x) / 2))` is used
/// so that the series argument stays small.
#[verifier::opaque]
pub open spec fn qasin_s(x: int) -> int {
    let xc = qclamp_s(x, -(Q as int), Q as int);
    let s = iabs(xc);
    let a: int = if s <= 2147483648 { asin_core_s(s) } else {
        sat64(6746518852 - 2 * asin_core_s(qsqrt_s((Q - s) / 2)))
    };
    if xc < 0 { qneg_s(a) } else { a }
}

pub fn qasin(x: i64) -> (r: i64)
    ensures r == qasin_s(x as int),
{
    proof { reveal(qasin_s); }
    let xc = qclamp(x, -4294967296, 4294967296);
    let s: i64 = if xc < 0 { -xc } else { xc };
    let a: i64 = if s <= 2147483648 {
        asin_core(s)
    } else {
        let t: i64 = (((4294967296 - s) as u64) / 2) as i64;
        let ac = asin_core(qsqrt(t));
        let w: i128 = 6746518852i128 - 2 * (ac as i128);
        if w > i64::MAX as i128 { i64::MAX } else if w < i64::MIN as i128 { i64::MIN } else { w as i64 }
    };
    if xc < 0 { qneg(a) } else { a }
}

/// Arccosine, as `pi/2 - asin`.
#[verifier::opaque]
pub open spec fn qacos_s(x: int) -> int {
    qsub_s(6746518852, qasin_s(x))
}

pub fn qacos(x: i64) -> (r: i64)
    ensures r == qacos_s(x as int),
{
    proof { reveal(qacos_s); }
    qsub(6746518852, qasin(x))
}

/// Real power `x^y` for positive bases, as `exp(y * ln x)`; zero for
/// non-positive bases.
#[verifier::opaque]
pub open spec fn qpow_s(x: int, y: int) -> int {
    if x <= 0 { 0 } else { qexp_s(qmul_s(y, qln_s(x))) }
}

pub fn qpow(x: i64, y: i64) -> (r: i64)
    ensures r == qpow_s(x as int, y as int),
{
    proof { reveal(qpow_s); }
    if x <= 0 { 0 } else { qexp(qmul(y, qln(x))) }
}

} // verus!
