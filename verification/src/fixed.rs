//! Saturating Q32.32 fixed-point arithmetic.
//!
//! A fixed-point value `v: i64` stands for the real number `v / 2^32`.
//! Every operation is total: where the mathematical result leaves the
//! representable range it saturates at `i64::MIN` / `i64::MAX`, and the
//! specification says exactly that.

use vstd::prelude::*;

verus! {

/// The fixed-point unit: 2^32.
pub const Q: i64 = 4294967296;

/// Magnitude of a mathematical integer.
pub open spec fn iabs(x: int) -> int {
    if x < 0 { -x } else { x }
}

/// Saturation of a mathematical integer into the `i64` range.
pub open spec fn sat64(x: int) -> int {
    if x > i64::MAX { i64::MAX as int } else if x < i64::MIN { i64::MIN as int } else { x }
}

/// Division rounded toward zero, defined through magnitudes.
pub open spec fn tzdiv(n: int, d: int) -> int
    recommends d != 0,
{
    if (n < 0) != (d < 0) { -(iabs(n) / iabs(d)) } else { iabs(n) / iabs(d) }
}

/// Saturating fixed-point addition.
pub open spec fn qadd_s(a: int, b: int) -> int {
    sat64(a + b)
}

/// Saturating fixed-point subtraction.
pub open spec fn qsub_s(a: int, b: int) -> int {
    sat64(a - b)
}

/// Saturating fixed-point negation.
pub open spec fn qneg_s(a: int) -> int {
    sat64(-a)
}

/// Saturating fixed-point multiplication: `a * b / 2^32`, rounded toward zero.
pub open spec fn qmul_s(a: int, b: int) -> int {
    sat64(tzdiv(a * b, Q as int))
}

/// Saturating fixed-point division: `a * 2^32 / b`, rounded toward zero.
/// Division by zero saturates in the direction of the dividend's sign.
pub open spec fn qdiv_s(a: int, b: int) -> int {
    if b == 0 {
        if a > 0 { i64::MAX as int } else if a < 0 { i64::MIN as int } else { 0 }
    } else {
        sat64(tzdiv(a * Q, b))
    }
}

pub fn qadd(a: i64, b: i64) -> (r: i64)
    ensures r == qadd_s(a as int, b as int),
{
    let s: i128 = a as i128 + b as i128;
    if s > i64::MAX as i128 { i64::MAX } else if s < i64::MIN as i128 { i64::MIN } else { s as i64 }
}

pub fn qsub(a: i64, b: i64) -> (r: i64)
    ensures r == qsub_s(a as int, b as int),
{
    let s: i128 = a as i128 - b as i128;
    if s > i64::MAX as i128 { i64::MAX } else if s < i64::MIN as i128 { i64::MIN } else { s as i64 }
}

pub fn qneg(a: i64) -> (r: i64)
    ensures r == qneg_s(a as int),
{
    if a == i64::MIN { i64::MAX } else { -a }
}

pub fn qmul(a: i64, b: i64) -> (r: i64)
    ensures r == qmul_s(a as int, b as int),
{
    proof {
        assert((a as int) * (b as int) <= 0x40000000000000000000000000000000
            && (a as int) * (b as int) >= -0x40000000000000000000000000000000) by (nonlinear_arith)
            requires
                -0x8000000000000000 <= a as int <= 0x7fffffffffffffff,
                -0x8000000000000000 <= b as int <= 0x7fffffffffffffff;
    }
    let p: i128 = (a as i128) * (b as i128);
    let neg: bool = p < 0;
    let m: u128 = if neg { (-p) as u128 } else { p as u128 };
    let d: u128 = m / 4294967296u128;
    let r0: i128 = if neg { -(d as i128) } else { d as i128 };
    if r0 > i64::MAX as i128 { i64::MAX } else if r0 < i64::MIN as i128 { i64::MIN } else { r0 as i64 }
}

pub fn qdiv(a: i64, b: i64) -> (r: i64)
    ensures r == qdiv_s(a as int, b as int),
{
    if b == 0 {
        if a > 0 { i64::MAX } else if a < 0 { i64::MIN } else { 0 }
    } else {
        let neg: bool = (a < 0) != (b < 0);
        let ma: u128 = if a < 0 { (-(a as i128)) as u128 } else { a as u128 };
        let mb: u128 = if b < 0 { (-(b as i128)) as u128 } else { b as u128 };
        let d: u128 = (ma * 4294967296u128) / mb;
        let r0: i128 = if neg { -(d as i128) } else { d as i128 };
        if r0 > i64::MAX as i128 { i64::MAX } else if r0 < i64::MIN as i128 { i64::MIN } else { r0 as i64 }
    }
}

/// Clamp into `[lo, hi]`.
pub open spec fn qclamp_s(x: int, lo: int, hi: int) -> int {
    if x < lo { lo } else if x > hi { hi } else { x }
}

pub fn qclamp(x: i64, lo: i64, hi: i64) -> (r: i64)
    requires lo <= hi,
    ensures r == qclamp_s(x as int, lo as int, hi as int),
{
    if x < lo { lo } else if x > hi { hi } else { x }
}

/// Saturating magnitude.
pub open spec fn qabs_s(a: int) -> int {
    sat64(iabs(a))
}

pub fn qabs(a: i64) -> (r: i64)
    ensures r == qabs_s(a as int),
{
    if a == i64::MIN { i64::MAX } else if a < 0 { -a } else { a }
}

/// Halving, rounded toward zero.
pub open spec fn qhalf_s(a: int) -> int {
    tzdiv(a, 2)
}

pub fn qhalf(a: i64) -> (r: i64)
    ensures r == qhalf_s(a as int),
{
    let s: i128 = a as i128;
    let neg: bool = s < 0;
    let m: u128 = if neg { (-s) as u128 } else { s as u128 };
    let d: u128 = m / 2;
    let r0: i128 = if neg { -(d as i128) } else { d as i128 };
    r0 as i64
}

pub proof fn lemma_qmul_nonneg(a: int, b: int)
    requires a >= 0, b >= 0,
    ensures 0 <= qmul_s(a, b),
{
    assert(a * b >= 0) by (nonlinear_arith)
        requires a >= 0, b >= 0;
}

pub proof fn lemma_qmul_le_unit(v: int, f: int)
    requires 0 <= v <= i64::MAX, 0 <= f <= Q,
    ensures 0 <= qmul_s(v, f) <= v,
{
    lemma_qmul_nonneg(v, f);
    assert(v * f <= v * Q) by (nonlinear_arith)
        requires 0 <= v, 0 <= f <= Q;
    vstd::arithmetic::div_mod::lemma_div_is_ordered(v * f, v * Q, Q as int);
    vstd::arithmetic::div_mod::lemma_div_multiples_vanish(v, Q as int);
    assert(v * Q == Q * v) by (nonlinear_arith);
}

pub proof fn lemma_qmul_mono(a: int, b: int, f: int)
    requires 0 <= a <= b, 0 <= f,
    ensures qmul_s(a, f) <= qmul_s(b, f),
{
    lemma_qmul_nonneg(a, f);
    assert(a * f <= b * f) by (nonlinear_arith)
        requires 0 <= a <= b, 0 <= f;
    vstd::arithmetic::div_mod::lemma_div_is_ordered(a * f, b * f, Q as int);
}

pub proof fn lemma_qdiv_nonneg(a: int, b: int)
    requires a >= 0, b >= 0,
    ensures 0 <= qdiv_s(a, b),
{
    if b != 0 {
        assert(a * Q >= 0) by (nonlinear_arith)
            requires a >= 0;
    }
}

/// Clamp at zero from below.
pub open spec fn qmax0_s(a: int) -> int {
    if a < 0 { 0 } else { a }
}

pub fn qmax0(a: i64) -> (r: i64)
    ensures r == qmax0_s(a as int),
{
    if a < 0 { 0 } else { a }
}

} // verus!
