//! The daily driver: orchestrates solar geometry, irradiance, attenuation
//! and production across the half day from the 80-degree-zenith crossing
//! to noon, and reduces the per-timestep column production to the daily
//! total by trapezoidal integration, doubled for the symmetric afternoon.

use vstd::prelude::*;
use crate::fixed::{
    Q, qadd_s, qsub_s, qmul_s, qdiv_s, qhalf_s, qabs_s, tzdiv,
    qadd, qsub, qmul, qdiv, qhalf, qabs,
};
use crate::model::{
    ModelInputs, ModelSettings, ModelOutputs, PPErrors,
    WL_COUNT, DEPTH_PROFILE_COUNT, DEPTH_PROFILE_STEP, TIMESTEPS, inputs_valid_s, validate_inputs,
};

verus! {

/// The trapezoid contribution of the interval between timesteps `t` and
/// `t + 1`.
pub open spec fn tterm_s(pp: Seq<i64>, dt: int, t: int) -> int {
    qhalf_s(qmul_s(qadd_s(pp[t] as int, pp[t + 1] as int), dt))
}

/// Trapezoidal integral over the first `n` timestep intervals.
pub open spec fn htrap_s(pp: Seq<i64>, dt: int, n: int) -> int
    decreases n,
{
    if n <= 0 { 0 } else { qadd_s(htrap_s(pp, dt, n - 1), tterm_s(pp, dt, n - 1)) }
}

/// The half-day integral: the half-weighted partial interval between
/// sunrise and the first valid timestep, plus the trapezoid over the
/// valid half day.
pub open spec fn daily_base_s(pp: Seq<i64>, dt: int, pre: int, n: int) -> int
    decreases n,
{
    if n <= 0 { qhalf_s(qmul_s(pp[0] as int, pre)) }
    else { qadd_s(daily_base_s(pp, dt, pre, n - 1), tterm_s(pp, dt, n - 1)) }
}

/// Daily production: the half-day integral doubled for the symmetric
/// afternoon.
pub open spec fn pp_day_s(pp: Seq<i64>, dt: int, pre: int) -> int {
    qmul_s(daily_base_s(pp, dt, pre, TIMESTEPS as int - 1), 8589934592)
}

/// Integrates per-timestep column production over the day.
pub fn integrate_daily_production(pp: &Vec<i64>, delta_t: i64, delta_prestart: i64) -> (r: i64)
    requires pp@.len() == TIMESTEPS,
    ensures r == pp_day_s(pp@, delta_t as int, delta_prestart as int),
{
    let mut acc: i64 = qhalf(qmul(pp[0], delta_prestart));
    let mut t: usize = 0;
    while t < TIMESTEPS - 1
        invariant
            0 <= t <= TIMESTEPS - 1,
            pp@.len() == TIMESTEPS,
            acc == daily_base_s(pp@, delta_t as int, delta_prestart as int, t as int),
        decreases TIMESTEPS - 1 - t,
    {
        acc = qadd(acc, qhalf(qmul(qadd(pp[t], pp[t + 1]), delta_t)));
        t = t + 1;
    }
    qmul(acc, 8589934592)
}

/// The half-day series reflected around noon into a full day: morning
/// timesteps followed by their mirror images.
pub open spec fn mirror_s(pp: Seq<i64>) -> Seq<i64> {
    Seq::new((2 * pp.len() - 1) as nat, |i: int|
        if i < pp.len() { pp[i] } else { pp[2 * (pp.len() - 1) - i] })
}

proof fn lemma_tterm_exact(pp: Seq<i64>, dt: int, t: int)
    requires
        0 <= t, t + 1 < pp.len(),
        0 <= pp[t] <= 0x200000000000,
        0 <= pp[t + 1] <= 0x200000000000,
        0 <= dt <= 0x800000000,
    ensures
        0 <= tterm_s(pp, dt, t) <= 0x2000000000000,
{
    let a = pp[t] as int;
    let b = pp[t + 1] as int;
    assert(qadd_s(a, b) == a + b);
    assert(0 <= (a + b) * dt <= 0x400000000000 * 0x800000000) by (nonlinear_arith)
        requires 0 <= a + b <= 0x400000000000, 0 <= dt <= 0x800000000;
    assert(tzdiv((a + b) * dt, Q as int) == (a + b) * dt / (Q as int));
    vstd::arithmetic::div_mod::lemma_div_is_ordered((a + b) * dt, 0x400000000000int * 0x800000000int, Q as int);
    assert(0x400000000000int * 0x800000000int / (Q as int) == 0x2000000000000int);
}

proof fn lemma_htrap_bounds(pp: Seq<i64>, dt: int, n: int)
    requires
        0 <= n, n + 1 <= pp.len(),
        forall|t: int| 0 <= t < pp.len() ==> 0 <= #[trigger] pp[t] <= 0x200000000000,
        0 <= dt <= 0x800000000,
    ensures
        0 <= htrap_s(pp, dt, n) <= n * 0x2000000000000,
    decreases n,
{
    if n > 0 {
        lemma_htrap_bounds(pp, dt, n - 1);
        lemma_tterm_exact(pp, dt, n - 1);
    }
}

proof fn lemma_htrap_mirror_prefix(pp: Seq<i64>, dt: int, n: int)
    requires
        pp.len() == TIMESTEPS,
        0 <= n <= TIMESTEPS - 1,
    ensures
        htrap_s(mirror_s(pp), dt, n) == htrap_s(pp, dt, n),
    decreases n,
{
    if n > 0 {
        lemma_htrap_mirror_prefix(pp, dt, n - 1);
        assert(mirror_s(pp)[n - 1] == pp[n - 1]);
        assert(mirror_s(pp)[n] == pp[n]);
    }
}

proof fn lemma_htrap_mirror_second(pp: Seq<i64>, dt: int, j: int)
    requires
        pp.len() == TIMESTEPS,
        0 <= j <= TIMESTEPS - 1,
        forall|t: int| 0 <= t < pp.len() ==> 0 <= #[trigger] pp[t] <= 0x200000000000,
        0 <= dt <= 0x800000000,
    ensures
        htrap_s(mirror_s(pp), dt, TIMESTEPS as int - 1 + j) ==
            htrap_s(pp, dt, TIMESTEPS as int - 1) + htrap_s(pp, dt, TIMESTEPS as int - 1)
            - htrap_s(pp, dt, TIMESTEPS as int - 1 - j),
    decreases j,
{
    let tm1 = TIMESTEPS as int - 1;
    let m = mirror_s(pp);
    assert(forall|t: int| 0 <= t < m.len() ==> 0 <= #[trigger] m[t] <= 0x200000000000);
    if j == 0 {
        lemma_htrap_mirror_prefix(pp, dt, tm1);
    } else {
        lemma_htrap_mirror_second(pp, dt, j - 1);
        // the new mirrored interval repeats the half-day interval tm1 - j
        assert(m[tm1 + j - 1] == pp[tm1 - j + 1]);
        assert(m[tm1 + j] == pp[tm1 - j]);
        assert(tterm_s(m, dt, tm1 + j - 1) == tterm_s(pp, dt, tm1 - j)) by {
            assert(qadd_s(m[tm1 + j - 1] as int, m[tm1 + j] as int)
                == qadd_s(pp[tm1 - j] as int, pp[tm1 - j + 1] as int));
        }
        // all partial sums are exact under the bounds, so the sums regroup
        lemma_htrap_bounds(pp, dt, tm1);
        lemma_htrap_bounds(pp, dt, tm1 - j);
        lemma_htrap_bounds(pp, dt, tm1 - j + 1);
        lemma_htrap_bounds(m, dt, tm1 + j - 1);
        lemma_tterm_exact(pp, dt, tm1 - j);
        assert(htrap_s(pp, dt, tm1 - j + 1) == htrap_s(pp, dt, tm1 - j) + tterm_s(pp, dt, tm1 - j));
    }
}

/// Daily production computed by integrating the sunrise-to-noon half and
/// doubling equals the full-day trapezoidal integral over the mirrored
/// timestep series plus the dawn partial interval and its dusk mirror
/// image: the morning/afternoon symmetry doubling loses nothing.
pub proof fn lemma_symmetry_doubling(pp: Seq<i64>, dt: int, pre: int)
    requires
        pp.len() == TIMESTEPS,
        forall|t: int| 0 <= t < pp.len() ==> 0 <= #[trigger] pp[t] <= 0x200000000000,
        0 <= dt <= 0x800000000,
        0 <= pre <= 0x2000000000,
    ensures
        pp_day_s(pp, dt, pre) == qadd_s(
            qadd_s(htrap_s(mirror_s(pp), dt, 2 * (TIMESTEPS as int - 1)), qhalf_s(qmul_s(pp[0] as int, pre))),
            qhalf_s(qmul_s(pp[0] as int, pre))),
{
    let tm1 = TIMESTEPS as int - 1;
    let m = mirror_s(pp);
    let preterm = qhalf_s(qmul_s(pp[0] as int, pre));
    // the prestart term is exact and small
    assert(0 <= pp[0] * pre <= 0x200000000000 * 0x2000000000) by (nonlinear_arith)
        requires 0 <= pp[0] <= 0x200000000000, 0 <= pre <= 0x2000000000;
    assert(tzdiv(pp[0] * pre, Q as int) == pp[0] * pre / (Q as int));
    vstd::arithmetic::div_mod::lemma_div_is_ordered(pp[0] * pre, 0x200000000000int * 0x2000000000int, Q as int);
    assert(0 <= preterm <= 0x40000000000000);

    // the half-day base splits into the prestart term plus the trapezoid
    assert forall|n: int| 0 <= n <= tm1 implies
        daily_base_s(pp, dt, pre, n) == preterm + htrap_s(pp, dt, n) by {
        lemma_daily_base_split(pp, dt, pre, n, preterm);
    }
    lemma_htrap_bounds(pp, dt, tm1);
    lemma_htrap_mirror_second(pp, dt, tm1);

    // doubling is exact at this magnitude
    let base = daily_base_s(pp, dt, pre, tm1);
    assert(pp_day_s(pp, dt, pre) == qmul_s(base, 8589934592));
    assert(tzdiv(base * 8589934592, Q as int) == 2 * base) by (nonlinear_arith)
        requires 0 <= base < 0x100000000000000, Q == 0x100000000;
}

proof fn lemma_daily_base_split(pp: Seq<i64>, dt: int, pre: int, n: int, preterm: int)
    requires
        pp.len() == TIMESTEPS,
        0 <= n <= TIMESTEPS - 1,
        forall|t: int| 0 <= t < pp.len() ==> 0 <= #[trigger] pp[t] <= 0x200000000000,
        0 <= dt <= 0x800000000,
        preterm == qhalf_s(qmul_s(pp[0] as int, pre)),
        0 <= preterm <= 0x40000000000000,
    ensures
        daily_base_s(pp, dt, pre, n) == preterm + htrap_s(pp, dt, n),
    decreases n,
{
    if n > 0 {
        lemma_daily_base_split(pp, dt, pre, n - 1, preterm);
        lemma_htrap_bounds(pp, dt, n - 1);
        lemma_tterm_exact(pp, dt, n - 1);
    }
}

/// The depth grid as a sequence.
#[verifier::opaque]
pub open spec fn depthseq_s() -> Seq<i64> {
    Seq::new(DEPTH_PROFILE_COUNT as nat, |z: int| (z * DEPTH_PROFILE_STEP) as i64)
}

/// The chlorophyll profile as a sequence.
#[verifier::opaque]
pub open spec fn chlseq_s(inp: &ModelInputs, mld_only: bool) -> Seq<i64> {
    Seq::new(DEPTH_PROFILE_COUNT as nat, |z: int|
        crate::chl_profile::chl_at_s(inp, mld_only, (z * DEPTH_PROFILE_STEP) as int) as i64)
}

/// The direct sea-level spectrum of one timestep as a sequence.
#[verifier::opaque]
pub open spec fn d61seq_s(zr: int, zd: int) -> Seq<i64> {
    Seq::new(WL_COUNT as nat, |i: int| crate::irradiance::direct61_s(zr, zd, i) as i64)
}

/// The diffuse sea-level spectrum of one timestep as a sequence.
#[verifier::opaque]
pub open spec fn f61seq_s(zr: int, zd: int) -> Seq<i64> {
    Seq::new(WL_COUNT as nat, |i: int| crate::irradiance::diffuse61_s(zr, zd, i) as i64)
}

/// The corrected direct spectrum of one timestep as a sequence.
#[verifier::opaque]
pub open spec fn dcorseq_s(zr: int, zd: int, sc: int, iom: int, dl: int, sr: int, time: int, cloud: int) -> Seq<i64> {
    Seq::new(WL_COUNT as nat, |l: int| crate::irradiance::dc_final_s(
        d61seq_s(zr, zd), f61seq_s(zr, zd), sc, iom, dl, sr, zr, time, cloud, l) as i64)
}

/// The corrected diffuse spectrum of one timestep as a sequence.
#[verifier::opaque]
pub open spec fn fcorseq_s(zr: int, zd: int, sc: int, iom: int, dl: int, sr: int, time: int, cloud: int) -> Seq<i64> {
    Seq::new(WL_COUNT as nat, |l: int| crate::irradiance::fc_final_s(
        d61seq_s(zr, zd), f61seq_s(zr, zd), sc, iom, dl, sr, zr, time, cloud, l) as i64)
}

/// The production-efficiency profile of one timestep as a sequence.
#[verifier::opaque]
pub open spec fn iaprof_s(inp: &ModelInputs, mo: bool, zr: int, zd: int, sc: int, iom: int, dl: int, sr: int, time: int, cloud: int) -> Seq<i64> {
    Seq::new(DEPTH_PROFILE_COUNT as nat, |z: int| crate::light_profile::ialpha_at_s(
        inp, chlseq_s(inp, mo),
        dcorseq_s(zr, zd, sc, iom, dl, sr, time, cloud),
        fcorseq_s(zr, zd, sc, iom, dl, sr, time, cloud), zr, z) as i64)
}

/// The PAR profile of one timestep as a sequence.
#[verifier::opaque]
pub open spec fn parprof_s(inp: &ModelInputs, mo: bool, zr: int, zd: int, sc: int, iom: int, dl: int, sr: int, time: int, cloud: int) -> Seq<i64> {
    Seq::new(DEPTH_PROFILE_COUNT as nat, |z: int| crate::light_profile::par_at_s(
        inp, chlseq_s(inp, mo),
        dcorseq_s(zr, zd, sc, iom, dl, sr, time, cloud),
        fcorseq_s(zr, zd, sc, iom, dl, sr, time, cloud), zr, z) as i64)
}

/// The production profile of one timestep as a sequence: the saturating
/// response above the euphotic index, zero below it.
#[verifier::opaque]
pub open spec fn ppprof_s(inp: &ModelInputs, mo: bool, zr: int, zd: int, sc: int, iom: int, dl: int, sr: int, time: int, cloud: int) -> Seq<i64> {
    let parp = parprof_s(inp, mo, zr, zd, sc, iom, dl, sr, time, cloud);
    let iap = iaprof_s(inp, mo, zr, zd, sc, iom, dl, sr, time, cloud);
    let zi = crate::pp_profile::euph_idx_s(parp, 0);
    Seq::new(DEPTH_PROFILE_COUNT as nat, |z: int|
        if z <= zi { crate::pp_profile::pp_at_s(chlseq_s(inp, mo), iap, inp.pmb as int, z) as i64 } else { 0i64 })
}

/// Trapezoidal integral of a production profile over the first `n` depth
/// intervals.
pub open spec fn zsum_s(ppp: Seq<i64>, n: int) -> int
    decreases n,
{
    if n <= 0 { 0 } else {
        qadd_s(zsum_s(ppp, n - 1),
            qhalf_s(qmul_s(DEPTH_PROFILE_STEP as int, qadd_s(ppp[n - 1] as int, ppp[n] as int))))
    }
}

/// Whether one timestep's light never reaches the one-percent level (the
/// soft per-timestep failure).
#[verifier::opaque]
pub open spec fn soft_fail_s(inp: &ModelInputs, mo: bool, zr: int, zd: int, sc: int, iom: int, dl: int, sr: int, time: int) -> bool {
    crate::pp_profile::euph_idx_s(parprof_s(inp, mo, zr, zd, sc, iom, dl, sr, time, inp.cloud as int), 0)
        == DEPTH_PROFILE_COUNT
}

/// The euphotic index of one timestep after the bottom clamp.
#[verifier::opaque]
pub open spec fn eidx_s(inp: &ModelInputs, mo: bool, zr: int, zd: int, sc: int, iom: int, dl: int, sr: int, time: int) -> int {
    let parp = parprof_s(inp, mo, zr, zd, sc, iom, dl, sr, time, inp.cloud as int);
    let zi = crate::pp_profile::euph_idx_s(parp, 0);
    let raw = crate::pp_profile::euph_depth_raw_s(depthseq_s(), parp, zi);
    if qabs_s(raw) > qabs_s(inp.z_bottom as int) { DEPTH_PROFILE_COUNT as int - 1 } else { zi - 1 }
}

/// The euphotic depth of one timestep after the bottom clamp.
#[verifier::opaque]
pub open spec fn euph_val_s(inp: &ModelInputs, mo: bool, zr: int, zd: int, sc: int, iom: int, dl: int, sr: int, time: int) -> int {
    let parp = parprof_s(inp, mo, zr, zd, sc, iom, dl, sr, time, inp.cloud as int);
    let zi = crate::pp_profile::euph_idx_s(parp, 0);
    let raw = crate::pp_profile::euph_depth_raw_s(depthseq_s(), parp, zi);
    if qabs_s(raw) > qabs_s(inp.z_bottom as int) { qabs_s(inp.z_bottom as int) } else { raw }
}

/// The euphotic index floored at one, as used by the depth integration.
#[verifier::opaque]
pub open spec fn eidx_adj_s(inp: &ModelInputs, mo: bool, zr: int, zd: int, sc: int, iom: int, dl: int, sr: int, time: int) -> int {
    let e = eidx_s(inp, mo, zr, zd, sc, iom, dl, sr, time);
    if e == 0 { 1 } else { e }
}

/// Column production of one timestep: the depth trapezoid down to the
/// euphotic index plus the partial interval to the euphotic depth.
#[verifier::opaque]
pub open spec fn ppt_val_s(inp: &ModelInputs, mo: bool, zr: int, zd: int, sc: int, iom: int, dl: int, sr: int, time: int) -> int {
    let ppp = ppprof_s(inp, mo, zr, zd, sc, iom, dl, sr, time, inp.cloud as int);
    let ei = eidx_adj_s(inp, mo, zr, zd, sc, iom, dl, sr, time);
    qadd_s(zsum_s(ppp, ei), qmul_s(ppp[ei] as int,
        qsub_s(euph_val_s(inp, mo, zr, zd, sc, iom, dl, sr, time),
            qmul_s(qsub_s(ei * Q, Q as int), DEPTH_PROFILE_STEP as int))))
}

/// The light-saturation contribution of one timestep: its diagnostic over
/// its euphotic index.
#[verifier::opaque]
pub open spec fn istar_t_s(inp: &ModelInputs, mo: bool, zr: int, zd: int, sc: int, iom: int, dl: int, sr: int, time: int) -> int {
    let parp = parprof_s(inp, mo, zr, zd, sc, iom, dl, sr, time, inp.cloud as int);
    let iap = iaprof_s(inp, mo, zr, zd, sc, iom, dl, sr, time, inp.cloud as int);
    let zi = crate::pp_profile::euph_idx_s(parp, 0);
    qdiv_s(qdiv_s(crate::pp_profile::iasum_s(iap, zi + 1), inp.pmb as int),
        eidx_adj_s(inp, mo, zr, zd, sc, iom, dl, sr, time) * Q)
}

/// Runs the irradiance, attenuation and production pipeline of one
/// timestep; reports the soft failure as a false flag with zero values.
#[verifier::rlimit(100)]
fn pp_timestep(
    inp: &ModelInputs,
    mo: bool,
    chl_profile: &Vec<i64>,
    depth_profile: &Vec<i64>,
    sc: i64,
    iom: i64,
    day_length: i64,
    sunrise: i64,
    zr: i64,
    zd: i64,
    time: i64,
) -> (r: (bool, i64, i64, i64))
    requires
        inputs_valid_s(inp),
        chl_profile@ == chlseq_s(inp, mo),
        depth_profile@ == depthseq_s(),
    ensures
        r.0 == !soft_fail_s(inp, mo, zr as int, zd as int, sc as int, iom as int, day_length as int, sunrise as int, time as int),
        r.0 ==> r.1 == ppt_val_s(inp, mo, zr as int, zd as int, sc as int, iom as int, day_length as int, sunrise as int, time as int),
        r.0 ==> r.2 == euph_val_s(inp, mo, zr as int, zd as int, sc as int, iom as int, day_length as int, sunrise as int, time as int),
        r.0 ==> r.3 == istar_t_s(inp, mo, zr as int, zd as int, sc as int, iom as int, day_length as int, sunrise as int, time as int),
        !r.0 ==> r.1 == 0 && r.2 == 0 && r.3 == 0,
{
    proof {
        assert(chl_profile@.len() == DEPTH_PROFILE_COUNT && depth_profile@.len() == DEPTH_PROFILE_COUNT) by {
            reveal(chlseq_s);
            reveal(depthseq_s);
        }
    }
    let ghost zri = zr as int;
    let ghost zdi = zd as int;
    let ghost sci = sc as int;
    let ghost iomi = iom as int;
    let ghost dli = day_length as int;
    let ghost sri = sunrise as int;
    let ghost ti = time as int;

    let (d61, f61) = crate::irradiance::compute_irradiance_components(zr, zd);
    proof {
        assert(d61@ =~= d61seq_s(zri, zdi) && f61@ =~= f61seq_s(zri, zdi)) by {
            reveal(d61seq_s);
            reveal(f61seq_s);
        }
    }
    let (dc, fc) = crate::irradiance::correct_and_recompute_irradiance_components(
        &d61, &f61, sc, iom, day_length, sunrise, zr, time, inp.cloud);
    proof {
        assert(dc@ =~= dcorseq_s(zri, zdi, sci, iomi, dli, sri, ti, inp.cloud as int)
            && fc@ =~= fcorseq_s(zri, zdi, sci, iomi, dli, sri, ti, inp.cloud as int)) by {
            reveal(dcorseq_s);
            reveal(fcorseq_s);
        }
    }
    let (ia, par) = crate::light_profile::calc_light_decay_profile(chl_profile, &dc, &fc, zr, inp);
    proof {
        assert(ia@ =~= iaprof_s(inp, mo, zri, zdi, sci, iomi, dli, sri, ti, inp.cloud as int)
            && par@ =~= parprof_s(inp, mo, zri, zdi, sci, iomi, dli, sri, ti, inp.cloud as int)) by {
            reveal(iaprof_s);
            reveal(parprof_s);
        }
    }
    let pp_res = crate::pp_profile::compute_pp_depth_profile(chl_profile, depth_profile, &ia, &par, inp);
    proof {
        assert((pp_res is Err) == soft_fail_s(inp, mo, zri, zdi, sci, iomi, dli, sri, ti)) by {
            reveal(soft_fail_s);
        }
    }
    match pp_res {
        Err(_) => (false, 0, 0, 0),
        Ok(p) => {
            proof {
                assert(p.pp_profile@ =~= ppprof_s(inp, mo, zri, zdi, sci, iomi, dli, sri, ti, inp.cloud as int)) by {
                    reveal(ppprof_s);
                }
            }
            let mut ei: usize = p.euph_index;
            if ei == 0 { ei = 1; }
            proof {
                assert(ei as int == eidx_adj_s(inp, mo, zri, zdi, sci, iomi, dli, sri, ti)
                    && p.euphotic_depth == euph_val_s(inp, mo, zri, zdi, sci, iomi, dli, sri, ti)
                    && 1 <= ei < DEPTH_PROFILE_COUNT) by {
                    reveal(eidx_s);
                    reveal(eidx_adj_s);
                    reveal(euph_val_s);
                    crate::pp_profile::lemma_euph_idx_range(par@, 0);
                }
            }
            let mut acc: i64 = 0;
            let mut z: usize = 0;
            while z < ei
                invariant
                    0 <= z <= ei,
                    ei < DEPTH_PROFILE_COUNT,
                    p.pp_profile@.len() == DEPTH_PROFILE_COUNT,
                    acc == zsum_s(p.pp_profile@, z as int),
                decreases ei - z,
            {
                acc = qadd(acc, qhalf(qmul(2147483648, qadd(p.pp_profile[z], p.pp_profile[z + 1]))));
                z = z + 1;
            }
            let tail = qmul(p.pp_profile[ei], qsub(p.euphotic_depth,
                qmul(qsub((ei as i64) * 4294967296, 4294967296), 2147483648)));
            let pp_t = qadd(acc, tail);
            let istar = qdiv(p.spectral_i_star, (ei as i64) * 4294967296);
            proof {
                assert(pp_t == ppt_val_s(inp, mo, zri, zdi, sci, iomi, dli, sri, ti)) by {
                    reveal(ppt_val_s);
                }
                assert(istar == istar_t_s(inp, mo, zri, zdi, sci, iomi, dli, sri, ti)) by {
                    reveal(istar_t_s);
                }
            }
            (true, pp_t, p.euphotic_depth, istar)
        }
    }
}

/// The hour of the 80-degree-zenith crossing of a run.
pub open spec fn t80_s(inp: &ModelInputs) -> int {
    crate::solar::zenith_time_s(crate::solar::declination_s(inp.iday as int),
        crate::solar::phi_s(inp.lat as int), 343597383680)
}

/// The timestep width of a run.
pub open spec fn dtrun_s(inp: &ModelInputs) -> int {
    crate::solar::delta_t_s(t80_s(inp))
}

/// The hour of timestep `t` of a run.
pub open spec fn time_t_s(inp: &ModelInputs, t: int) -> int {
    crate::solar::time_at_s(t80_s(inp), dtrun_s(inp), t)
}

/// The zenith angle (radians) at timestep `t`.
pub open spec fn zenr_t_s(inp: &ModelInputs, t: int) -> int {
    crate::solar::zen_r_s(time_t_s(inp, t),
        crate::solar::declination_s(inp.iday as int), crate::solar::phi_s(inp.lat as int))
}

/// The zenith angle (degrees) at timestep `t`.
pub open spec fn zend_t_s(inp: &ModelInputs, t: int) -> int {
    crate::solar::zen_d_s(time_t_s(inp, t),
        crate::solar::declination_s(inp.iday as int), crate::solar::phi_s(inp.lat as int))
}

/// A timestep is valid when its zenith angle is under the 80-degree
/// threshold (with its small guard band).
pub open spec fn valid_t_s(inp: &ModelInputs, t: int) -> bool {
    zend_t_s(inp, t) < 343597598428
}

/// The first valid timestep at or after `t`; the timestep count where
/// none is valid.
pub open spec fn fv_s(inp: &ModelInputs, t: int) -> int
    decreases TIMESTEPS - t,
{
    if t >= TIMESTEPS { TIMESTEPS as int }
    else if valid_t_s(inp, t) { t }
    else { fv_s(inp, t + 1) }
}

/// The sunrise hour of a run.
pub open spec fn sunrise_run_s(inp: &ModelInputs) -> int {
    crate::solar::sunrise_s(inp.iday as int, inp.lat as int)
}

/// A degenerate day: sunrise outside [0, 12), or no timestep with the sun
/// above the 80-degree zenith line before noon (polar day or night).
pub open spec fn degenerate_s(inp: &ModelInputs) -> bool {
    ||| !(0 <= sunrise_run_s(inp) < 51539607552)
    ||| fv_s(inp, 0) == TIMESTEPS
}

/// The day length of a run: twice the span from sunrise to noon.
pub open spec fn dl_run_s(inp: &ModelInputs) -> int {
    qmul_s(8589934592, qsub_s(51539607552, sunrise_run_s(inp)))
}

/// The noon-time irradiance maximum fixed by the observed daily PAR.
pub open spec fn iom_run_s(inp: &ModelInputs) -> int {
    qdiv_s(qmul_s(inp.par as int, 13493037705), qmul_s(8589934592, dl_run_s(inp)))
}

/// The partial interval between sunrise and the crossing hour.
pub open spec fn pre_run_s(inp: &ModelInputs) -> int {
    qsub_s(t80_s(inp), sunrise_run_s(inp))
}

/// The seasonal solar-constant correction of a run.
pub open spec fn sc_run_s(inp: &ModelInputs) -> int {
    crate::irradiance::thek_s(inp.iday as int)
}

/// Whether timestep `t` contributes: valid zenith and a found euphotic
/// depth.
pub open spec fn el_ok_s(inp: &ModelInputs, mo: bool, t: int) -> bool {
    valid_t_s(inp, t) && !soft_fail_s(inp, mo, zenr_t_s(inp, t), zend_t_s(inp, t),
        sc_run_s(inp), iom_run_s(inp), dl_run_s(inp), sunrise_run_s(inp), time_t_s(inp, t))
}

/// Column production of timestep `t`; zero for skipped timesteps and for
/// the soft per-timestep failure.
pub open spec fn ppt_el_s(inp: &ModelInputs, mo: bool, t: int) -> int {
    if el_ok_s(inp, mo, t) {
        ppt_val_s(inp, mo, zenr_t_s(inp, t), zend_t_s(inp, t),
            sc_run_s(inp), iom_run_s(inp), dl_run_s(inp), sunrise_run_s(inp), time_t_s(inp, t))
    } else { 0 }
}

/// Euphotic depth of timestep `t`; zero where it does not contribute.
pub open spec fn euph_el_s(inp: &ModelInputs, mo: bool, t: int) -> int {
    if el_ok_s(inp, mo, t) {
        euph_val_s(inp, mo, zenr_t_s(inp, t), zend_t_s(inp, t),
            sc_run_s(inp), iom_run_s(inp), dl_run_s(inp), sunrise_run_s(inp), time_t_s(inp, t))
    } else { 0 }
}

/// The per-timestep production series of a run.
pub open spec fn ppseq_run_s(inp: &ModelInputs, mo: bool) -> Seq<i64> {
    Seq::new(TIMESTEPS as nat, |t: int| ppt_el_s(inp, mo, t) as i64)
}

/// The per-timestep euphotic-depth series of a run.
pub open spec fn euphseq_run_s(inp: &ModelInputs, mo: bool) -> Seq<i64> {
    Seq::new(TIMESTEPS as nat, |t: int| euph_el_s(inp, mo, t) as i64)
}

/// Running sum of the light-saturation contributions over the first `n`
/// timesteps.
pub open spec fn isum_run_s(inp: &ModelInputs, mo: bool, n: int) -> int
    decreases n,
{
    if n <= 0 { 0 } else {
        qadd_s(isum_run_s(inp, mo, n - 1),
            if el_ok_s(inp, mo, n - 1) {
                istar_t_s(inp, mo, zenr_t_s(inp, n - 1), zend_t_s(inp, n - 1),
                    sc_run_s(inp), iom_run_s(inp), dl_run_s(inp), sunrise_run_s(inp), time_t_s(inp, n - 1))
            } else { 0 })
    }
}

/// Number of contributing timesteps among the first `n`.
pub open spec fn count_run_s(inp: &ModelInputs, mo: bool, n: int) -> int
    decreases n,
{
    if n <= 0 { 0 } else {
        count_run_s(inp, mo, n - 1) + (if el_ok_s(inp, mo, n - 1) { 1int } else { 0int })
    }
}

/// The time-mean light-saturation diagnostic; zero where no timestep
/// contributed.
pub open spec fn istar_mean_s(inp: &ModelInputs, mo: bool) -> int {
    let c = count_run_s(inp, mo, TIMESTEPS as int);
    if c > 0 { qdiv_s(isum_run_s(inp, mo, TIMESTEPS as int), c * Q) } else { 0 }
}

/// The running maximum euphotic depth over the first `n` timesteps.
pub open spec fn maxeuph_s(e: Seq<i64>, n: int) -> int
    decreases n,
{
    if n <= 0 { 0 } else {
        let m = maxeuph_s(e, n - 1);
        if qabs_s(m) < qabs_s(e[n - 1] as int) { qabs_s(e[n - 1] as int) } else { m }
    }
}

/// The daily column production of a run.
pub open spec fn ppday_run_s(inp: &ModelInputs, mo: bool) -> int {
    pp_day_s(ppseq_run_s(inp, mo), dtrun_s(inp), pre_run_s(inp))
}

/// Runs the whole model for one day and column: rejects invalid inputs
/// and degenerate days exactly; in the noon-maximum-only mode stops after
/// the noon irradiance maximum; otherwise integrates the per-timestep
/// column production to the daily total, tracks the deepest euphotic
/// depth and the mean light-saturation diagnostic, and rejects daily
/// production beyond the plausibility ceiling, exactly.
#[verifier::rlimit(100)]
pub fn calc_production(input: &ModelInputs, settings: &ModelSettings) -> (r: Result<ModelOutputs, PPErrors>)
    ensures
        (r == Result::<ModelOutputs, PPErrors>::Err(PPErrors::InvalidInput)) <==> !inputs_valid_s(input),
        inputs_valid_s(input) ==> ((r == Result::<ModelOutputs, PPErrors>::Err(PPErrors::DegenerateDay)) <==> degenerate_s(input)),
        inputs_valid_s(input) && !degenerate_s(input) && settings.iom_only ==> (r is Ok && {
            let out = r->Ok_0;
            &&& out.pp_day is None
            &&& out.euphotic_depth is None
            &&& out.spectral_i_star is None
            &&& out.par_noon_max == Some(iom_run_s(input) as i64)
            &&& out.pro_1_profile is None
            &&& out.pro_2_profile is None
            &&& out.pro_total_profile is None
            &&& out.pp_prochloro_profile is None
        }),
        inputs_valid_s(input) && !degenerate_s(input) && !settings.iom_only ==> {
            &&& ((r == Result::<ModelOutputs, PPErrors>::Err(PPErrors::ImplausibleProduction))
                <==> ppday_run_s(input, settings.mld_only) > 42949672960000)
            &&& (r is Ok ==> {
                let out = r->Ok_0;
                &&& out.pp_day == Some(ppday_run_s(input, settings.mld_only) as i64)
                &&& out.par_noon_max == Some(iom_run_s(input) as i64)
                &&& out.spectral_i_star == Some(istar_mean_s(input, settings.mld_only) as i64)
                &&& (settings.prochloro_inputs is None ==> {
                    &&& out.euphotic_depth == Some(maxeuph_s(euphseq_run_s(input, settings.mld_only), TIMESTEPS as int - 1) as i64)
                    &&& out.pro_1_profile is None
                    &&& out.pro_2_profile is None
                    &&& out.pro_total_profile is None
                    &&& out.pp_prochloro_profile is None
                })
            })
        },
{
    if !validate_inputs(input) {
        return Err(PPErrors::InvalidInput);
    }
    let mo = settings.mld_only;
    let (depth_array, chl_profile) = crate::chl_profile::gen_chl_profile(input, settings);
    proof {
        assert(chl_profile@ =~= chlseq_s(input, mo)) by { reveal(chlseq_s); }
        assert(depth_array@ =~= depthseq_s()) by { reveal(depthseq_s); }
    }

    let (sunrise, delta, phi) = crate::solar::compute_sunrise(input.iday, input.lat);
    let zenith_80_time = crate::solar::compute_zenith_time(delta, phi, 343597383680);
    let (time_array, delta_t) = crate::solar::generate_time_array(zenith_80_time);
    let (zenith_array, zenith_d_array) = crate::solar::generate_zenith_array(&time_array, delta, phi);
    proof {
        assert forall|t: int| 0 <= t < TIMESTEPS implies
            zenith_array@[t] == zenr_t_s(input, t) && zenith_d_array@[t] == zend_t_s(input, t)
            && time_array@[t] == time_t_s(input, t) by {}
    }

    let mut fv: usize = 0;
    while fv < TIMESTEPS && zenith_d_array[fv] >= 343597598428
        invariant
            0 <= fv <= TIMESTEPS,
            zenith_d_array@.len() == TIMESTEPS,
            forall|t: int| 0 <= t < TIMESTEPS ==> zenith_d_array@[t] == zend_t_s(input, t),
            fv_s(input, 0) == fv_s(input, fv as int),
        decreases TIMESTEPS - fv,
    {
        fv = fv + 1;
    }
    if sunrise < 0 || sunrise >= 51539607552 || fv == TIMESTEPS {
        return Err(PPErrors::DegenerateDay);
    }
    proof { assert(!degenerate_s(input)); }

    let day_length = qmul(8589934592, qsub(51539607552, sunrise));
    let iom = qdiv(qmul(input.par, 13493037705), qmul(8589934592, day_length));
    let delta_prestart = qsub(zenith_80_time, sunrise);

    if settings.iom_only {
        return Ok(ModelOutputs {
            pp_day: None,
            euphotic_depth: None,
            spectral_i_star: None,
            par_noon_max: Some(iom),
            pro_1_profile: None,
            pro_2_profile: None,
            pro_total_profile: None,
            pp_prochloro_profile: None,
        });
    }

    let sc = crate::irradiance::lookup_thekaekara_correction(input.iday);

    let mut pro1_acc: Vec<i64> = Vec::new();
    let mut pro2_acc: Vec<i64> = Vec::new();
    let mut prot_acc: Vec<i64> = Vec::new();
    let mut prop_acc: Vec<i64> = Vec::new();
    let mut zi: usize = 0;
    while zi < DEPTH_PROFILE_COUNT
        invariant
            0 <= zi <= DEPTH_PROFILE_COUNT,
            pro1_acc@.len() == zi, pro2_acc@.len() == zi, prot_acc@.len() == zi, prop_acc@.len() == zi,
        decreases DEPTH_PROFILE_COUNT - zi,
    {
        pro1_acc.push(0);
        pro2_acc.push(0);
        prot_acc.push(0);
        prop_acc.push(0);
        zi = zi + 1;
    }
    let mut pro_total_count: i64 = 0;

    proof {
        assert(chl_profile@.len() == DEPTH_PROFILE_COUNT && depth_array@.len() == DEPTH_PROFILE_COUNT) by {
            reveal(chlseq_s);
            reveal(depthseq_s);
        }
    }
    let mut pp: Vec<i64> = Vec::new();
    let mut euph: Vec<i64> = Vec::new();
    let mut istar_sum: i64 = 0;
    let mut istar_count: i64 = 0;
    let mut t: usize = 0;
    while t < TIMESTEPS
        invariant
            0 <= t <= TIMESTEPS,
            inputs_valid_s(input),
            mo == settings.mld_only,
            chl_profile@ == chlseq_s(input, mo),
            depth_array@ == depthseq_s(),
            chl_profile@.len() == DEPTH_PROFILE_COUNT,
            depth_array@.len() == DEPTH_PROFILE_COUNT,
            time_array@.len() == TIMESTEPS,
            zenith_array@.len() == TIMESTEPS,
            zenith_d_array@.len() == TIMESTEPS,
            forall|j: int| 0 <= j < TIMESTEPS ==> zenith_array@[j] == zenr_t_s(input, j),
            forall|j: int| 0 <= j < TIMESTEPS ==> zenith_d_array@[j] == zend_t_s(input, j),
            forall|j: int| 0 <= j < TIMESTEPS ==> time_array@[j] == time_t_s(input, j),
            sunrise == sunrise_run_s(input),
            day_length == dl_run_s(input),
            iom == iom_run_s(input),
            sc == sc_run_s(input),
            pp@.len() == t, euph@.len() == t,
            pro1_acc@.len() == DEPTH_PROFILE_COUNT, pro2_acc@.len() == DEPTH_PROFILE_COUNT,
            prot_acc@.len() == DEPTH_PROFILE_COUNT, prop_acc@.len() == DEPTH_PROFILE_COUNT,
            0 <= pro_total_count <= t,
            forall|j: int| 0 <= j < t ==> pp@[j] == ppt_el_s(input, mo, j),
            settings.prochloro_inputs is None ==>
                forall|j: int| 0 <= j < t ==> euph@[j] == euph_el_s(input, mo, j),
            istar_sum == isum_run_s(input, mo, t as int),
            istar_count == count_run_s(input, mo, t as int),
            0 <= istar_count <= t,
        decreases TIMESTEPS - t,
    {
        if zenith_d_array[t] >= 343597598428 {
            pp.push(0);
            euph.push(0);
        } else {
            let (ok, pp_t, euph_t, istar_t) = pp_timestep(
                input, mo, &chl_profile, &depth_array, sc, iom, day_length, sunrise,
                zenith_array[t], zenith_d_array[t], time_array[t]);
            if ok {
                istar_sum = qadd(istar_sum, istar_t);
                istar_count = istar_count + 1;
            }
            pp.push(pp_t);
            let mut e_t = euph_t;
            match &settings.prochloro_inputs {
                None => {},
                Some(pro) => {
                    let (ia, par) = pp_timestep_profiles(
                        input, mo, &chl_profile, sc, iom, day_length, sunrise,
                        zenith_array[t], zenith_d_array[t], time_array[t]);
                    let pres = crate::pp_profile::compute_prochloro_profile(
                        &chl_profile, &depth_array, &ia, &par, input,
                        pro.prochloro_surface, pro.prochloro_maximum);
                    match pres {
                        Err(_) => {},
                        Ok(mut pq) => {
                            e_t = pq.euphotic_depth;
                            let mut ei: usize = pq.euph_index;
                            if ei == 0 { ei = 1; }
                            let bound: usize = if settings.prochloro_euphotic_cutoff { ei } else { DEPTH_PROFILE_COUNT };
                            let bnd: usize = if bound > DEPTH_PROFILE_COUNT { DEPTH_PROFILE_COUNT } else { bound };
                            let mut z: usize = 0;
                            while z < bnd
                                invariant
                                    0 <= z <= bnd <= DEPTH_PROFILE_COUNT,
                                    pro1_acc@.len() == DEPTH_PROFILE_COUNT,
                                    pro2_acc@.len() == DEPTH_PROFILE_COUNT,
                                    prot_acc@.len() == DEPTH_PROFILE_COUNT,
                                    prop_acc@.len() == DEPTH_PROFILE_COUNT,
                                    pq.pro_1_profile@.len() == DEPTH_PROFILE_COUNT,
                                    pq.pro_2_profile@.len() == DEPTH_PROFILE_COUNT,
                                    pq.pp_prochloro_profile@.len() == DEPTH_PROFILE_COUNT,
                                decreases bnd - z,
                            {
                                let v1 = pq.pro_1_profile[z];
                                let v2 = pq.pro_2_profile[z];
                                let old1 = pro1_acc[z];
                                let old2 = pro2_acc[z];
                                let oldt = prot_acc[z];
                                let oldp = prop_acc[z];
                                pro1_acc.set(z, qadd(old1, v1));
                                pro2_acc.set(z, qadd(old2, v2));
                                prot_acc.set(z, qadd(oldt, qadd(v1, v2)));
                                prop_acc.set(z, qadd(oldp, pq.pp_prochloro_profile[z]));
                                z = z + 1;
                            }
                            if pro_total_count < TIMESTEPS as i64 {
                                pro_total_count = pro_total_count + 1;
                            }
                        }
                    }
                }
            }
            euph.push(e_t);
        }
        t = t + 1;
    }

    let pp_day = integrate_daily_production(&pp, delta_t, delta_prestart);
    proof {
        assert(pp@ =~= ppseq_run_s(input, mo)) by { reveal(ppseq_run_s); }
        assert(pp_day == ppday_run_s(input, mo));
    }

    let mut max_euphotic_depth: i64 = 0;
    let mut t2: usize = 0;
    while t2 < TIMESTEPS - 1
        invariant
            0 <= t2 <= TIMESTEPS - 1,
            euph@.len() == TIMESTEPS,
            max_euphotic_depth == maxeuph_s(euph@, t2 as int),
        decreases TIMESTEPS - 1 - t2,
    {
        if qabs(max_euphotic_depth) < qabs(euph[t2]) {
            max_euphotic_depth = qabs(euph[t2]);
        }
        t2 = t2 + 1;
    }
    proof {
        if settings.prochloro_inputs is None {
            assert(euph@ =~= euphseq_run_s(input, mo)) by { reveal(euphseq_run_s); }
        }
    }

    let spectral_i_star_mean: i64 = if istar_count > 0 {
        qdiv(istar_sum, istar_count * 4294967296)
    } else {
        0
    };

    let has_pro = settings.prochloro_inputs.is_some();
    if has_pro && pro_total_count > 0 {
        let mut z: usize = 0;
        while z < DEPTH_PROFILE_COUNT
            invariant
                0 <= z <= DEPTH_PROFILE_COUNT,
                pro1_acc@.len() == DEPTH_PROFILE_COUNT,
                pro2_acc@.len() == DEPTH_PROFILE_COUNT,
                prot_acc@.len() == DEPTH_PROFILE_COUNT,
                prop_acc@.len() == DEPTH_PROFILE_COUNT,
                0 < pro_total_count <= TIMESTEPS,
            decreases DEPTH_PROFILE_COUNT - z,
        {
            let c = pro_total_count * 4294967296;
            let o1 = pro1_acc[z];
            let o2 = pro2_acc[z];
            let ot = prot_acc[z];
            let op = prop_acc[z];
            pro1_acc.set(z, qdiv(o1, c));
            pro2_acc.set(z, qdiv(o2, c));
            prot_acc.set(z, qdiv(ot, c));
            prop_acc.set(z, qdiv(op, c));
            z = z + 1;
        }
    }

    if pp_day > 42949672960000 {
        Err(PPErrors::ImplausibleProduction)
    } else if has_pro {
        Ok(ModelOutputs {
            pp_day: Some(pp_day),
            euphotic_depth: Some(max_euphotic_depth),
            spectral_i_star: Some(spectral_i_star_mean),
            par_noon_max: Some(iom),
            pro_1_profile: Some(pro1_acc),
            pro_2_profile: Some(pro2_acc),
            pro_total_profile: Some(prot_acc),
            pp_prochloro_profile: Some(prop_acc),
        })
    } else {
        Ok(ModelOutputs {
            pp_day: Some(pp_day),
            euphotic_depth: Some(max_euphotic_depth),
            spectral_i_star: Some(spectral_i_star_mean),
            par_noon_max: Some(iom),
            pro_1_profile: None,
            pro_2_profile: None,
            pro_total_profile: None,
            pp_prochloro_profile: None,
        })
    }
}

/// Recomputes the light profiles of one timestep, for the secondary
/// population.
fn pp_timestep_profiles(
    inp: &ModelInputs,
    mo: bool,
    chl_profile: &Vec<i64>,
    sc: i64,
    iom: i64,
    day_length: i64,
    sunrise: i64,
    zr: i64,
    zd: i64,
    time: i64,
) -> (r: (Vec<i64>, Vec<i64>))
    requires
        inputs_valid_s(inp),
        chl_profile@ == chlseq_s(inp, mo),
    ensures
        r.0@.len() == DEPTH_PROFILE_COUNT,
        r.1@.len() == DEPTH_PROFILE_COUNT,
{
    proof {
        assert(chl_profile@.len() == DEPTH_PROFILE_COUNT) by { reveal(chlseq_s); }
    }
    let (d61, f61) = crate::irradiance::compute_irradiance_components(zr, zd);
    let (dc, fc) = crate::irradiance::correct_and_recompute_irradiance_components(
        &d61, &f61, sc, iom, day_length, sunrise, zr, time, inp.cloud);
    crate::light_profile::calc_light_decay_profile(chl_profile, &dc, &fc, zr, inp)
}

} // verus!
